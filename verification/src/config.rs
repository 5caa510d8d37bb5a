//! Endpoint configuration.
//!
//! The listener is provisioned with the wireless network's name and
//! password, the gateway's address and port, and the 32-byte
//! pre-shared authentication key that both endpoints must hold
//! identically.  Loading the values from the environment is the
//! embedding program's bootstrap; the validation — the key's exact
//! length, a port number's digits — is verified here.

use vstd::prelude::*;

verus! {

/// The wireless network to join.
pub struct WifiConfig {
    /// Network name.
    pub ssid: String,
    /// Network password.
    pub password: String,
}

impl WifiConfig {
    /// Builds the wireless configuration.
    pub fn new(ssid: String, password: String) -> (r: Self)
        ensures
            r.ssid@ == ssid@,
            r.password@ == password@,
    {
        Self { ssid, password }
    }
}

/// The gateway endpoint and the shared secret.
pub struct GatewayConfig {
    /// The gateway's address, four dotted-quad bytes.
    pub ip: [u8; 4],
    /// The gateway's TCP port.
    pub port: u16,
    /// The 32-byte pre-shared authentication key.
    pub auth: [u8; 32],
}

impl GatewayConfig {
    /// Builds the gateway configuration.
    pub fn new(ip: [u8; 4], port: u16, auth: [u8; 32]) -> (r: Self)
        ensures
            r.ip == ip,
            r.port == port,
            r.auth == auth,
    {
        Self { ip, port, auth }
    }
}

/// Why a configuration value was rejected.
#[derive(Debug, Clone, Copy, PartialEq, Eq, Structural)]
pub enum ConfigError {
    /// The authentication key is not exactly 32 bytes.
    BadKeyLength,
    /// The port is not a decimal number between 0 and 65 535.
    BadPort,
}

/// Takes a provisioned authentication key: accepted exactly when it
/// is 32 bytes, and then used verbatim.
pub fn auth_key_bytes(s: &[u8]) -> (r: Result<[u8; 32], ConfigError>)
    ensures
        r is Ok <==> s@.len() == 32,
        r matches Ok(k) ==> k@ == s@,
        r is Err ==> r == Err::<[u8; 32], ConfigError>(ConfigError::BadKeyLength),
{
    if s.len() != 32 {
        return Err(ConfigError::BadKeyLength);
    }
    let mut k = [0u8; 32];
    let mut i: usize = 0;
    while i < 32
        invariant
            i <= 32,
            s@.len() == 32,
            forall|j: int| 0 <= j < i ==> k@[j] == s@[j],
        decreases 32 - i,
    {
        k[i] = s[i];
        i += 1;
    }
    proof {
        assert(k@ =~= s@);
    }
    Ok(k)
}

/// Whether a byte is a decimal digit.
pub open spec fn is_digit(b: u8) -> bool {
    48 <= b <= 57
}

/// The number the decimal digits spell, most significant first.
pub open spec fn dec_val(s: Seq<u8>) -> int
    decreases s.len(),
{
    if s.len() == 0 {
        0
    } else {
        dec_val(s.drop_last()) * 10 + (s.last() - 48)
    }
}

/// Parses a decimal port number: accepted exactly when the input is
/// one or more digits spelling a value up to 65 535.
pub fn parse_port(s: &[u8]) -> (r: Result<u16, ConfigError>)
    ensures
        r is Ok <==> (s@.len() >= 1 && (forall|j: int| 0 <= j < s@.len() ==> is_digit(s@[j]))
            && dec_val(s@) <= 65535),
        r matches Ok(v) ==> v == dec_val(s@),
        r is Err ==> r == Err::<u16, ConfigError>(ConfigError::BadPort),
{
    if s.len() == 0 {
        return Err(ConfigError::BadPort);
    }
    let mut acc: u32 = 0;
    let mut over = false;
    let mut i: usize = 0;
    while i < s.len()
        invariant
            i <= s@.len(),
            forall|j: int| 0 <= j < i ==> is_digit(s@[j]),
            over <==> dec_val(s@.take(i as int)) > 65535,
            !over ==> acc == dec_val(s@.take(i as int)),
            acc <= 65535,
        decreases s@.len() - i,
    {
        let b = s[i];
        if b < 48 || b > 57 {
            return Err(ConfigError::BadPort);
        }
        let d: u32 = (b - 48) as u32;
        proof {
            assert(s@.take(i + 1).drop_last() =~= s@.take(i as int));
            assert(dec_val(s@.take(i + 1)) == dec_val(s@.take(i as int)) * 10 + (s@[i as int]
                - 48));
        }
        if over {
        } else if acc * 10 + d > 65535 {
            over = true;
        } else {
            acc = acc * 10 + d;
        }
        i += 1;
    }
    proof {
        assert(s@.take(s@.len() as int) =~= s@);
    }
    if over {
        return Err(ConfigError::BadPort);
    }
    Ok(acc as u16)
}

} // verus!
