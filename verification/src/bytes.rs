//! Big-endian byte-order helpers.
//!
//! Every multi-byte field on the wire is big-endian.  The spec
//! functions here give the numeric value of one, two, three or eight
//! bytes, and the executable functions compute those values (and their
//! inverses) with exact contracts.

use vstd::prelude::*;

verus! {

/// Value of two big-endian bytes, in `0 ..= 0xFFFF`.
pub open spec fn be16(b0: u8, b1: u8) -> int {
    b0 * 256 + b1
}

/// Value of two big-endian bytes read as a two's-complement 16-bit
/// signed integer, in `-0x8000 ..= 0x7FFF`.
pub open spec fn be_i16(b0: u8, b1: u8) -> int {
    if be16(b0, b1) >= 0x8000 {
        be16(b0, b1) - 0x10000
    } else {
        be16(b0, b1)
    }
}

/// Value of three big-endian bytes, in `0 ..= 0xFF_FFFF`.
pub open spec fn be24(b0: u8, b1: u8, b2: u8) -> int {
    b0 * 0x10000 + b1 * 0x100 + b2
}

/// Value of four big-endian bytes, in `0 ..= u32::MAX`.
pub open spec fn be32(b: Seq<u8>) -> int
    recommends
        b.len() == 4,
{
    b[0] * 0x100_0000 + b[1] * 0x10000 + b[2] * 0x100 + b[3]
}

/// Value of eight big-endian bytes, in `0 ..= u64::MAX`.
pub open spec fn be64(b: Seq<u8>) -> int
    recommends
        b.len() == 8,
{
    b[0] * 0x100_0000_0000_0000
        + b[1] * 0x1_0000_0000_0000
        + b[2] * 0x100_0000_0000
        + b[3] * 0x1_0000_0000
        + b[4] * 0x100_0000
        + b[5] * 0x10000
        + b[6] * 0x100
        + b[7]
}

/// The value represented by a signed 16-bit integer as two's-complement
/// bytes: high byte first.
pub open spec fn i16_hi(v: i16) -> u8 {
    u16_hi(i16_as_u16(v))
}

/// Low two's-complement byte of a signed 16-bit integer.
pub open spec fn i16_lo(v: i16) -> u8 {
    u16_lo(i16_as_u16(v))
}

/// Two's-complement 16-bit image of a signed 16-bit integer.
pub open spec fn i16_as_u16(v: i16) -> u16 {
    if v >= 0 {
        v as u16
    } else {
        (v + 0x10000) as u16
    }
}

/// High byte of an unsigned 16-bit integer.
pub open spec fn u16_hi(v: u16) -> u8 {
    (v / 256) as u8
}

/// Low byte of an unsigned 16-bit integer.
pub open spec fn u16_lo(v: u16) -> u8 {
    (v % 256) as u8
}

/// The four big-endian bytes of an unsigned 32-bit integer.
pub open spec fn u32_be_bytes(v: u32) -> Seq<u8> {
    seq![
        (v / 256 / 256 / 256) as u8,
        ((v / 256 / 256) % 256) as u8,
        ((v / 256) % 256) as u8,
        (v % 256) as u8,
    ]
}

/// The eight big-endian bytes of an unsigned 64-bit integer.
pub open spec fn u64_be_bytes(v: u64) -> Seq<u8> {
    seq![
        (v / 256 / 256 / 256 / 256 / 256 / 256 / 256) as u8,
        ((v / 256 / 256 / 256 / 256 / 256 / 256) % 256) as u8,
        ((v / 256 / 256 / 256 / 256 / 256) % 256) as u8,
        ((v / 256 / 256 / 256 / 256) % 256) as u8,
        ((v / 256 / 256 / 256) % 256) as u8,
        ((v / 256 / 256) % 256) as u8,
        ((v / 256) % 256) as u8,
        (v % 256) as u8,
    ]
}

/// Splitting off the low byte: `q * 256 + r` has quotient `q` and
/// remainder `r` by 256 whenever `r` is a byte.
pub proof fn lemma_byte_split(q: int, r: int)
    requires
        0 <= r < 256,
        0 <= q,
    ensures
        (q * 256 + r) / 256 == q,
        (q * 256 + r) % 256 == r,
{
    assert((q * 256 + r) / 256 == q && (q * 256 + r) % 256 == r) by (nonlinear_arith)
        requires
            0 <= r < 256,
            0 <= q,
    ;
}

/// The byte image of a 32-bit value evaluates back to the value.
pub proof fn lemma_u32_be_bytes(v: u32)
    ensures
        be32(u32_be_bytes(v)) == v,
{
    let q1 = v as int / 256;
    let q2 = q1 / 256;
    let q3 = q2 / 256;
    assert(v == q1 * 256 + v as int % 256);
    assert(q1 == q2 * 256 + q1 % 256);
    assert(q2 == q3 * 256 + q2 % 256);
    assert(q3 < 256);
}

/// Four bytes are the byte image of the value they evaluate to.
pub proof fn lemma_be32_bytes(b: Seq<u8>)
    requires
        b.len() == 4,
    ensures
        0 <= be32(b) < 0x1_0000_0000,
        u32_be_bytes(be32(b) as u32) =~= b,
{
    let v = be32(b);
    lemma_byte_split(b[0] * 0x10000 + b[1] * 0x100 + b[2], b[3] as int);
    assert(v / 256 == b[0] * 0x10000 + b[1] * 0x100 + b[2] && v % 256 == b[3]);
    lemma_byte_split(b[0] * 0x100 + b[1], b[2] as int);
    assert(v / 256 / 256 == b[0] * 0x100 + b[1] && v / 256 % 256 == b[2]);
    lemma_byte_split(b[0] as int, b[1] as int);
    assert(v / 256 / 256 / 256 == b[0] && v / 256 / 256 % 256 == b[1]);
}

/// The byte image of a 64-bit value evaluates back to the value.
pub proof fn lemma_u64_be_bytes(v: u64)
    ensures
        be64(u64_be_bytes(v)) == v,
{
    let q1 = v as int / 256;
    let q2 = q1 / 256;
    let q3 = q2 / 256;
    let q4 = q3 / 256;
    let q5 = q4 / 256;
    let q6 = q5 / 256;
    let q7 = q6 / 256;
    assert(v == q1 * 256 + v as int % 256);
    assert(q1 == q2 * 256 + q1 % 256);
    assert(q2 == q3 * 256 + q2 % 256);
    assert(q3 == q4 * 256 + q3 % 256);
    assert(q4 == q5 * 256 + q4 % 256);
    assert(q5 == q6 * 256 + q5 % 256);
    assert(q6 == q7 * 256 + q6 % 256);
    assert(q7 < 256);
}

/// Eight bytes are the byte image of the value they evaluate to.
pub proof fn lemma_be64_bytes(b: Seq<u8>)
    requires
        b.len() == 8,
    ensures
        0 <= be64(b) < 0x1_0000_0000_0000_0000,
        u64_be_bytes(be64(b) as u64) =~= b,
{
    let v = be64(b);
    lemma_byte_split(
        b[0] * 0x1_0000_0000_0000 + b[1] * 0x100_0000_0000 + b[2] * 0x1_0000_0000 + b[3]
            * 0x100_0000 + b[4] * 0x10000 + b[5] * 0x100 + b[6],
        b[7] as int,
    );
    lemma_byte_split(
        b[0] * 0x100_0000_0000 + b[1] * 0x1_0000_0000 + b[2] * 0x100_0000 + b[3] * 0x10000 + b[4]
            * 0x100 + b[5],
        b[6] as int,
    );
    lemma_byte_split(
        b[0] * 0x1_0000_0000 + b[1] * 0x100_0000 + b[2] * 0x10000 + b[3] * 0x100 + b[4],
        b[5] as int,
    );
    lemma_byte_split(b[0] * 0x100_0000 + b[1] * 0x10000 + b[2] * 0x100 + b[3], b[4] as int);
    lemma_byte_split(b[0] * 0x10000 + b[1] * 0x100 + b[2], b[3] as int);
    lemma_byte_split(b[0] * 0x100 + b[1], b[2] as int);
    lemma_byte_split(b[0] as int, b[1] as int);
}

/// A two's-complement 16-bit image evaluates back to its signed value.
pub proof fn lemma_i16_round_trip(v: i16)
    ensures
        be_i16(i16_hi(v), i16_lo(v)) == v,
{
    let u = i16_as_u16(v);
    assert(u == u / 256 * 256 + u % 256);
}

/// Two bytes are the two's-complement image of the signed value they
/// evaluate to.
pub proof fn lemma_be_i16_bytes(b0: u8, b1: u8)
    ensures
        -0x8000 <= be_i16(b0, b1) < 0x8000,
        i16_hi(be_i16(b0, b1) as i16) == b0,
        i16_lo(be_i16(b0, b1) as i16) == b1,
{
    lemma_byte_split(b0 as int, b1 as int);
    assert(i16_as_u16(be_i16(b0, b1) as i16) == be16(b0, b1));
}

/// Two bytes are the big-endian image of the unsigned value they
/// evaluate to.
pub proof fn lemma_be16_bytes(b0: u8, b1: u8)
    ensures
        0 <= be16(b0, b1) < 0x10000,
        u16_hi(be16(b0, b1) as u16) == b0,
        u16_lo(be16(b0, b1) as u16) == b1,
{
    lemma_byte_split(b0 as int, b1 as int);
}

/// Reads two big-endian bytes as an unsigned 16-bit integer.
pub fn read_be_u16(b0: u8, b1: u8) -> (r: u16)
    ensures
        r == be16(b0, b1),
{
    (b0 as u16) * 256 + (b1 as u16)
}

/// Reads two big-endian bytes as a two's-complement signed 16-bit
/// integer.
pub fn read_be_i16(b0: u8, b1: u8) -> (r: i16)
    ensures
        r == be_i16(b0, b1),
{
    let v: u16 = read_be_u16(b0, b1);
    if v >= 0x8000 {
        (-(0x10000i32 - v as i32)) as i16
    } else {
        v as i16
    }
}

/// Reads three big-endian bytes as an unsigned value below `2^24`.
pub fn read_be_u24(b0: u8, b1: u8, b2: u8) -> (r: u32)
    ensures
        r == be24(b0, b1, b2),
{
    (b0 as u32) * 0x10000 + (b1 as u32) * 0x100 + (b2 as u32)
}

/// Writes an unsigned 16-bit integer as two big-endian bytes.
pub fn write_be_u16(v: u16) -> (r: (u8, u8))
    ensures
        r.0 == u16_hi(v),
        r.1 == u16_lo(v),
        be16(r.0, r.1) == v,
{
    ((v / 256) as u8, (v % 256) as u8)
}

/// Writes a signed 16-bit integer as two big-endian two's-complement
/// bytes.
pub fn write_be_i16(v: i16) -> (r: (u8, u8))
    ensures
        r.0 == i16_hi(v),
        r.1 == i16_lo(v),
        be_i16(r.0, r.1) == v,
{
    let u: u16 = if v >= 0 {
        v as u16
    } else {
        ((v as i32) + 0x10000) as u16
    };
    assert(u == i16_as_u16(v));
    assert(be_i16(u16_hi(u), u16_lo(u)) == v);
    write_be_u16(u)
}

/// Writes an unsigned value below `2^24` as three big-endian bytes.
pub fn write_be_u24(v: u32) -> (r: (u8, u8, u8))
    requires
        v < 0x100_0000,
    ensures
        be24(r.0, r.1, r.2) == v,
{
    (((v / 0x10000) % 256) as u8, ((v / 0x100) % 256) as u8, ((v % 256)) as u8)
}

/// Reads four big-endian bytes as an unsigned 32-bit integer.
pub fn read_be_u32(b0: u8, b1: u8, b2: u8, b3: u8) -> (r: u32)
    ensures
        r == be32(seq![b0, b1, b2, b3]),
{
    (b0 as u32) * 0x100_0000 + (b1 as u32) * 0x10000 + (b2 as u32) * 0x100 + (b3 as u32)
}

/// Writes an unsigned 32-bit integer as four big-endian bytes.
pub fn write_be_u32(v: u32) -> (r: (u8, u8, u8, u8))
    ensures
        seq![r.0, r.1, r.2, r.3] == u32_be_bytes(v),
        be32(seq![r.0, r.1, r.2, r.3]) == v,
{
    let q1: u32 = v / 256;
    let q2: u32 = q1 / 256;
    let q3: u32 = q2 / 256;
    proof {
        lemma_u32_be_bytes(v);
        assert(seq![q3 as u8, (q2 % 256) as u8, (q1 % 256) as u8, (v % 256) as u8] =~= u32_be_bytes(
            v,
        ));
    }
    (q3 as u8, (q2 % 256) as u8, (q1 % 256) as u8, (v % 256) as u8)
}

/// Reads eight big-endian bytes, starting at `at`, as an unsigned
/// 64-bit integer.
pub fn read_be_u64(b: &[u8], at: usize) -> (r: u64)
    requires
        at + 8 <= b@.len(),
    ensures
        r == be64(b@.subrange(at as int, at + 8)),
{
    let mut r: u64 = b[at] as u64;
    r = r * 256 + b[at + 1] as u64;
    r = r * 256 + b[at + 2] as u64;
    r = r * 256 + b[at + 3] as u64;
    r = r * 256 + b[at + 4] as u64;
    r = r * 256 + b[at + 5] as u64;
    r = r * 256 + b[at + 6] as u64;
    r = r * 256 + b[at + 7] as u64;
    proof {
        let s = b@.subrange(at as int, at + 8);
        assert(s[0] == b@[at as int] && s[1] == b@[at + 1] && s[2] == b@[at + 2] && s[3] == b@[at
            + 3] && s[4] == b@[at + 4] && s[5] == b@[at + 5] && s[6] == b@[at + 6] && s[7] == b@[at
            + 7]);
    }
    r
}

/// Writes an unsigned 64-bit integer as eight big-endian bytes.
pub fn write_be_u64(v: u64) -> (r: Vec<u8>)
    ensures
        r@.len() == 8,
        r@ == u64_be_bytes(v),
        be64(r@) == v,
{
    let q6: u64 = v / 256;
    let q5: u64 = q6 / 256;
    let q4: u64 = q5 / 256;
    let q3: u64 = q4 / 256;
    let q2: u64 = q3 / 256;
    let q1: u64 = q2 / 256;
    let q0: u64 = q1 / 256;
    let b0: u8 = q0 as u8;
    let b1: u8 = (q1 % 256) as u8;
    let b2: u8 = (q2 % 256) as u8;
    let b3: u8 = (q3 % 256) as u8;
    let b4: u8 = (q4 % 256) as u8;
    let b5: u8 = (q5 % 256) as u8;
    let b6: u8 = (q6 % 256) as u8;
    let b7: u8 = (v % 256) as u8;
    let mut r: Vec<u8> = Vec::new();
    r.push(b0);
    r.push(b1);
    r.push(b2);
    r.push(b3);
    r.push(b4);
    r.push(b5);
    r.push(b6);
    r.push(b7);
    proof {
        assert(v == q6 * 256 + b7);
        assert(q6 == q5 * 256 + b6);
        assert(q5 == q4 * 256 + b5);
        assert(q4 == q3 * 256 + b4);
        assert(q3 == q2 * 256 + b3);
        assert(q2 == q1 * 256 + b2);
        assert(q1 == q0 * 256 + b1);
        assert(be64(r@) == v);
        assert(r@ =~= u64_be_bytes(v));
    }
    r
}

} // verus!
