//! Plain-HTTP delivery, an early transport.
//!
//! Before the encrypted session, records travelled as JSON bodies of
//! persistent HTTP requests.  The request builder and the
//! status-line reader of that transport live here: the builder lays
//! a fixed header block, the provisioned authorization value, the
//! body length in decimal and the body itself into one buffer, and
//! the reader picks the three-digit status code out of a response's
//! first line.

use vstd::prelude::*;
use vstd::string::StringSliceAdditionalSpecFns;

verus! {

/// The largest JSON body a request may carry.
pub const MAX_JSON_LEN: usize = 256;

/// The capacity of the request buffer.
pub const MAX_REQUEST_LEN: usize = 768;

/// The decimal digits of a number, most significant first, without
/// leading zeros.
pub open spec fn dec_spec(n: int) -> Seq<u8>
    recommends
        n >= 0,
    decreases n,
{
    if n < 10 {
        seq![(48 + n) as u8]
    } else {
        dec_spec(n / 10) + seq![(48 + n % 10) as u8]
    }
}

/// Writes a number as decimal digits.
pub fn dec_digits(n: usize) -> (r: Vec<u8>)
    ensures
        r@ == dec_spec(n as int),
    decreases n,
{
    if n < 10 {
        let mut r: Vec<u8> = Vec::new();
        r.push(48 + n as u8);
        proof {
            assert(r@ =~= dec_spec(n as int));
        }
        r
    } else {
        let mut r = dec_digits(n / 10);
        r.push(48 + (n % 10) as u8);
        proof {
            assert(r@ =~= dec_spec(n as int));
        }
        r
    }
}

/// The header block up to and including the authorization field
/// name.
pub open spec fn request_head() -> Seq<u8> {
    ("POST /api/ruuvi HTTP/1.1\r\nHost: 192.168.1.100:8080\r\nConnection: keep-alive\r\nContent-Type: application/json\r\nAuthorization: ").spec_bytes()
}

/// The request laid out for a body and an authorization value: the
/// header block, the authorization value, the body length in
/// decimal, and the body.
pub open spec fn request_spec(json: Seq<u8>, auth: Seq<u8>) -> Seq<u8> {
    request_head() + auth + ("\r\nContent-Length: ").spec_bytes() + dec_spec(json.len() as int) + (
    "\r\n\r\n").spec_bytes() + json
}

/// Why a request was not built.
#[derive(Debug, Clone, Copy, PartialEq, Eq, Structural)]
pub enum HttpError {
    /// The body exceeds the body buffer.
    JsonTooLong,
    /// The rough size estimate exceeds the request buffer.
    Capacity,
    /// The finished request exceeds the request buffer.
    Overflow,
}

/// Builds one persistent-connection request around a serialized
/// body.  The body must fit its buffer, and the request — first
/// estimated roughly, then exactly — must fit the request buffer.
pub fn build_request(json: &[u8], auth_key: &[u8]) -> (r: Result<Vec<u8>, HttpError>)
    ensures
        r is Ok <==> (json@.len() <= MAX_JSON_LEN && 128 + auth_key@.len() + json@.len()
            <= MAX_REQUEST_LEN && request_spec(json@, auth_key@).len() <= MAX_REQUEST_LEN),
        json@.len() > MAX_JSON_LEN ==> r == Err::<Vec<u8>, HttpError>(HttpError::JsonTooLong),
        json@.len() <= MAX_JSON_LEN && 128 + auth_key@.len() + json@.len() > MAX_REQUEST_LEN ==> r
            == Err::<Vec<u8>, HttpError>(HttpError::Capacity),
        r matches Ok(v) ==> v@ == request_spec(json@, auth_key@),
        r matches Ok(v) ==> v@.len() <= MAX_REQUEST_LEN,
{
    if json.len() > MAX_JSON_LEN {
        return Err(HttpError::JsonTooLong);
    }
    if auth_key.len() > MAX_REQUEST_LEN || 128 + json.len() + auth_key.len() > MAX_REQUEST_LEN {
        return Err(HttpError::Capacity);
    }
    let mut http: Vec<u8> = Vec::new();
    http.extend_from_slice(
        ("POST /api/ruuvi HTTP/1.1\r\nHost: 192.168.1.100:8080\r\nConnection: keep-alive\r\nContent-Type: application/json\r\nAuthorization: ").as_bytes(),
    );
    http.extend_from_slice(auth_key);
    http.extend_from_slice(("\r\nContent-Length: ").as_bytes());
    let mut digits = dec_digits(json.len());
    http.append(&mut digits);
    http.extend_from_slice(("\r\n\r\n").as_bytes());
    http.extend_from_slice(json);
    proof {
        assert(http@ =~= request_spec(json@, auth_key@));
    }
    if http.len() > MAX_REQUEST_LEN {
        return Err(HttpError::Overflow);
    }
    Ok(http)
}

/// Whether a carriage return and line feed stand at a position.
pub open spec fn crlf_at(b: Seq<u8>, i: int) -> bool {
    i + 1 < b.len() && b[i] == 13 && b[i + 1] == 10
}

/// The first position below the limit where a carriage return and
/// line feed stand, scanning from `i`.
pub open spec fn find_crlf_from(b: Seq<u8>, i: int, limit: int) -> Option<int>
    decreases limit - i,
{
    if i >= limit {
        None
    } else if crlf_at(b, i) {
        Some(i)
    } else {
        find_crlf_from(b, i + 1, limit)
    }
}

/// The first space at or after `i` in a line, or the line's length.
pub open spec fn find_space_from(b: Seq<u8>, i: int) -> int
    decreases b.len() - i,
{
    if i >= b.len() {
        b.len() as int
    } else if b[i] == 32 {
        i
    } else {
        find_space_from(b, i + 1)
    }
}

/// How far into a response the first line is looked for.
pub open spec fn crlf_limit(b: Seq<u8>) -> int {
    if b.len() < 64 {
        b.len() as int
    } else {
        64
    }
}

/// The status code of a response's first line: the line must end in
/// a carriage return and line feed within the first 64 bytes, and
/// its second space-separated field must be exactly three decimal
/// digits.
pub open spec fn status_line_spec(b: Seq<u8>) -> Option<u16> {
    match find_crlf_from(b, 0, crlf_limit(b)) {
        Option::None => None,
        Option::Some(end) => {
            let line = b.take(end);
            let sp = find_space_from(line, 0);
            if sp == line.len() {
                None
            } else {
                let code_end = find_space_from(line, sp + 1);
                let code = line.subrange(sp + 1, code_end);
                if code.len() == 3 && crate::config::is_digit(code[0]) && crate::config::is_digit(
                    code[1],
                ) && crate::config::is_digit(code[2]) {
                    Some(((code[0] - 48) * 100 + (code[1] - 48) * 10 + (code[2] - 48)) as u16)
                } else {
                    None
                }
            }
        },
    }
}

/// Scans for the first carriage return and line feed below the
/// limit.
fn find_crlf_exec(buf: &[u8], i: usize, limit: usize) -> (r: Option<usize>)
    requires
        i <= limit,
        limit <= buf@.len(),
    ensures
        r is None <==> find_crlf_from(buf@, i as int, limit as int) is None,
        r matches Some(v) ==> find_crlf_from(buf@, i as int, limit as int) == Some(v as int) && i
            <= v && v as int + 1 < buf@.len(),
    decreases limit - i,
{
    if i >= limit {
        None
    } else if i + 1 < buf.len() && buf[i] == 13 && buf[i + 1] == 10 {
        Some(i)
    } else {
        find_crlf_exec(buf, i + 1, limit)
    }
}

/// Scans a line, the first `end` bytes of the buffer, for the first
/// space at or after `i`.
fn find_space_exec(buf: &[u8], i: usize, end: usize) -> (r: usize)
    requires
        i <= end,
        end <= buf@.len(),
    ensures
        r == find_space_from(buf@.take(end as int), i as int),
        i <= r <= end,
    decreases end - i,
{
    if i >= end {
        end
    } else if buf[i] == 32 {
        i
    } else {
        find_space_exec(buf, i + 1, end)
    }
}

/// Reads the status code out of a response's first line.
pub fn parse_status_line(buf: &[u8]) -> (r: Option<u16>)
    ensures
        r == status_line_spec(buf@),
{
    let limit: usize = if buf.len() < 64 {
        buf.len()
    } else {
        64
    };
    let end = match find_crlf_exec(buf, 0, limit) {
        Some(e) => e,
        None => {
            return None;
        },
    };
    let ghost line = buf@.take(end as int);
    let sp = find_space_exec(buf, 0, end);
    if sp == end {
        return None;
    }
    let code_end = find_space_exec(buf, sp + 1, end);
    if code_end - sp - 1 != 3 {
        return None;
    }
    let d0 = buf[sp + 1];
    let d1 = buf[sp + 2];
    let d2 = buf[sp + 3];
    proof {
        let code = line.subrange(sp + 1, code_end as int);
        assert(code.len() == 3);
        assert(code[0] == buf@[sp + 1] && code[1] == buf@[sp + 2] && code[2] == buf@[sp + 3]);
    }
    if d0 < 48 || d0 > 57 || d1 < 48 || d1 > 57 || d2 < 48 || d2 > 57 {
        return None;
    }
    Some(((d0 - 48) as u16) * 100 + ((d1 - 48) as u16) * 10 + ((d2 - 48) as u16))
}

} // verus!
