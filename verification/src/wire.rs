//! Monitor-side view of a V2 advertisement.
//!
//! An early survey tool reads V2 advertisements straight off the
//! radio: it keeps the format byte with the record, remembers which
//! addresses it has already reported, and prints each address as
//! colon-separated hex.  The byte-level logic of that tool lives
//! here.

use crate::bytes::be16;
use crate::bytes::be_i16;
use crate::bytes::read_be_i16;
use crate::bytes::read_be_u16;
use vstd::prelude::*;

verus! {

/// Why a monitor payload was rejected.
#[derive(Debug, Clone, Copy, PartialEq, Eq, Structural)]
pub enum ParseError {
    /// The payload has fewer than 24 bytes.
    TooShort,
}

/// Raw fields of one V2 advertisement, format byte included.
#[derive(Debug, Clone, Copy)]
pub struct RuuviRawV2 {
    /// Format byte; byte 0.
    pub format: u8,
    /// Temperature, 0.005 degrees Celsius per unit; bytes 1-2.
    pub temp: i16,
    /// Relative humidity, 0.0025 percent per unit; bytes 3-4.
    pub humidity: u16,
    /// Pressure in pascal, offset by -50 000; bytes 5-6.
    pub pressure: u16,
    /// Acceleration along x in milli-g; bytes 7-8.
    pub acc_x: i16,
    /// Acceleration along y in milli-g; bytes 9-10.
    pub acc_y: i16,
    /// Acceleration along z in milli-g; bytes 11-12.
    pub acc_z: i16,
    /// Eleven bits of battery voltage and five bits of TX power; bytes 13-14.
    pub power_info: u16,
    /// Movement counter; byte 15.
    pub movement_counter: u8,
    /// Measurement sequence number; bytes 16-17.
    pub measurement_seq: u16,
    /// Sensor MAC address; bytes 18-23.
    pub mac: [u8; 6],
}

/// Whether a monitor payload parses, and to which record.
pub open spec fn monitor_fields_ok(data: Seq<u8>, r: RuuviRawV2) -> bool {
    &&& r.format == data[0]
    &&& r.temp == be_i16(data[1], data[2])
    &&& r.humidity == be16(data[3], data[4])
    &&& r.pressure == be16(data[5], data[6])
    &&& r.acc_x == be_i16(data[7], data[8])
    &&& r.acc_y == be_i16(data[9], data[10])
    &&& r.acc_z == be_i16(data[11], data[12])
    &&& r.power_info == be16(data[13], data[14])
    &&& r.movement_counter == data[15]
    &&& r.measurement_seq == be16(data[16], data[17])
    &&& r.mac@ == data.subrange(18, 24)
}

impl RuuviRawV2 {
    /// Parses a V2 payload that starts at the format byte; at least
    /// 24 bytes must be offered.
    pub fn from_bytes(data: &[u8]) -> (r: Result<Self, ParseError>)
        ensures
            data@.len() >= 24 ==> (r matches Ok(v2) && monitor_fields_ok(data@, v2)),
            data@.len() < 24 ==> r == Err::<RuuviRawV2, ParseError>(ParseError::TooShort),
    {
        if data.len() < 24 {
            return Err(ParseError::TooShort);
        }
        let mac = [data[18], data[19], data[20], data[21], data[22], data[23]];
        proof {
            assert(mac@ =~= data@.subrange(18, 24));
        }
        Ok(
            Self {
                format: data[0],
                temp: read_be_i16(data[1], data[2]),
                humidity: read_be_u16(data[3], data[4]),
                pressure: read_be_u16(data[5], data[6]),
                acc_x: read_be_i16(data[7], data[8]),
                acc_y: read_be_i16(data[9], data[10]),
                acc_z: read_be_i16(data[11], data[12]),
                power_info: read_be_u16(data[13], data[14]),
                movement_counter: data[15],
                measurement_seq: read_be_u16(data[16], data[17]),
                mac,
            },
        )
    }
}

/// Whether a legacy advertising report is a Ruuvi one: random
/// address, connectable undirected advertising, and the Ruuvi
/// manufacturer identifier `0x99 0x04` at bytes 5-6.
pub fn is_ruuvi_report(addr_kind_random: bool, event_kind_adv_ind: bool, data: &[u8]) -> (r: bool)
    ensures
        r <==> (addr_kind_random && event_kind_adv_ind && data@.len() >= 7 && data@[5] == 0x99
            && data@[6] == 0x04),
{
    addr_kind_random && event_kind_adv_ind && data.len() >= 7 && data[5] == 0x99 && data[6] == 0x04
}

/// Reverses a six-byte little-endian address into big-endian order.
pub fn to_be_mac(data: &[u8]) -> (r: [u8; 6])
    requires
        data@.len() == 6,
    ensures
        forall|i: int| 0 <= i < 6 ==> r@[i] == data@[5 - i],
{
    [data[5], data[4], data[3], data[2], data[1], data[0]]
}

/// The hex character for a value below 16, upper case.
pub open spec fn hex_char(n: int) -> char {
    if n == 0 {
        '0'
    } else if n == 1 {
        '1'
    } else if n == 2 {
        '2'
    } else if n == 3 {
        '3'
    } else if n == 4 {
        '4'
    } else if n == 5 {
        '5'
    } else if n == 6 {
        '6'
    } else if n == 7 {
        '7'
    } else if n == 8 {
        '8'
    } else if n == 9 {
        '9'
    } else if n == 10 {
        'A'
    } else if n == 11 {
        'B'
    } else if n == 12 {
        'C'
    } else if n == 13 {
        'D'
    } else if n == 14 {
        'E'
    } else {
        'F'
    }
}

/// The two hex characters of one byte, high nibble first.
pub open spec fn hex_pair(b: u8) -> Seq<char> {
    seq![hex_char(b as int / 16), hex_char(b as int % 16)]
}

/// Bytes as upper-case hex pairs joined by colons.
pub open spec fn hex_colon_spec(s: Seq<u8>) -> Seq<char>
    decreases s.len(),
{
    if s.len() == 0 {
        Seq::empty()
    } else if s.len() == 1 {
        hex_pair(s[0])
    } else {
        hex_colon_spec(s.drop_last()) + seq![':'] + hex_pair(s.last())
    }
}

/// The hex characters of a value below 16, as a one-character slice.
fn hex_str(n: u8) -> (r: &'static str)
    requires
        n < 16,
    ensures
        r@ == seq![hex_char(n as int)],
{
    proof {
        reveal_strlit("0");
        reveal_strlit("1");
        reveal_strlit("2");
        reveal_strlit("3");
        reveal_strlit("4");
        reveal_strlit("5");
        reveal_strlit("6");
        reveal_strlit("7");
        reveal_strlit("8");
        reveal_strlit("9");
        reveal_strlit("A");
        reveal_strlit("B");
        reveal_strlit("C");
        reveal_strlit("D");
        reveal_strlit("E");
        reveal_strlit("F");
    }
    match n {
        0 => "0",
        1 => "1",
        2 => "2",
        3 => "3",
        4 => "4",
        5 => "5",
        6 => "6",
        7 => "7",
        8 => "8",
        9 => "9",
        10 => "A",
        11 => "B",
        12 => "C",
        13 => "D",
        14 => "E",
        _ => "F",
    }
}

/// Formats an address as upper-case hex pairs joined by colons.
pub fn addr_to_hex(addr: &[u8]) -> (r: String)
    ensures
        r@ == hex_colon_spec(addr@),
{
    let mut r = String::new();
    let mut i: usize = 0;
    while i < addr.len()
        invariant
            i <= addr@.len(),
            r@ == hex_colon_spec(addr@.take(i as int)),
        decreases addr@.len() - i,
    {
        if i > 0 {
            proof {
                reveal_strlit(":");
            }
            r.append(":");
        }
        r.append(hex_str(addr[i] / 16));
        r.append(hex_str(addr[i] % 16));
        i += 1;
        proof {
            let t = addr@.take(i as int);
            assert(t.drop_last() =~= addr@.take(i - 1));
            assert(t.last() == addr@[i - 1]);
            if i == 1 {
                assert(hex_colon_spec(t) =~= hex_pair(addr@[0]));
                assert(r@ =~= hex_colon_spec(t));
            } else {
                assert(r@ =~= hex_colon_spec(t));
            }
        }
    }
    proof {
        assert(addr@.take(addr@.len() as int) =~= addr@);
    }
    r
}

/// Remembers which addresses the monitor has already reported: a
/// first-in, first-out window of the last 128 report addresses.
pub struct Printer {
    /// The remembered addresses, oldest first.
    pub seen: Vec<[u8; 6]>,
}

impl Printer {
    /// Whether the window is within its capacity.
    pub open spec fn wf(&self) -> bool {
        self.seen@.len() <= 128
    }

    /// An empty window.
    pub fn new() -> (r: Self)
        ensures
            r.wf(),
            r.seen@.len() == 0,
    {
        Printer { seen: Vec::new() }
    }

    /// Notes one report address.  Returns whether the address was
    /// absent from the window; the oldest entry falls out when the
    /// window is full, and the address is then remembered last.
    pub fn note(&mut self, addr: [u8; 6]) -> (was_new: bool)
        requires
            old(self).wf(),
        ensures
            final(self).wf(),
            was_new <==> !old(self).seen@.contains(addr),
            final(self).seen@ == if old(self).seen@.len() == 128 {
                old(self).seen@.skip(1).push(addr)
            } else {
                old(self).seen@.push(addr)
            },
    {
        let mut found = false;
        let mut i: usize = 0;
        while i < self.seen.len()
            invariant
                i <= self.seen@.len(),
                found <==> exists|j: int| 0 <= j < i && self.seen@[j] == addr,
            decreases self.seen@.len() - i,
        {
            if mac_eq(&self.seen[i], &addr) {
                found = true;
            }
            i += 1;
        }
        proof {
            assert(found <==> self.seen@.contains(addr));
        }
        if self.seen.len() == 128 {
            self.seen.remove(0);
            proof {
                assert(self.seen@ =~= old(self).seen@.skip(1));
            }
        }
        self.seen.push(addr);
        !found
    }
}

/// Whether two six-byte addresses hold the same bytes.
pub fn mac_eq(a: &[u8; 6], b: &[u8; 6]) -> (r: bool)
    ensures
        r <==> a == b,
{
    let mut i: usize = 0;
    while i < 6
        invariant
            i <= 6,
            forall|j: int| 0 <= j < i ==> a@[j] == b@[j],
        decreases 6 - i,
    {
        if a[i] != b[i] {
            return false;
        }
        i += 1;
    }
    proof {
        broadcast use vstd::array::axiom_array_ext_equal;

        assert(*a =~= *b);
    }
    true
}

} // verus!
