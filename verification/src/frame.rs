//! Length-prefixed framing.
//!
//! Every message on the wire is a two-byte big-endian payload length
//! followed by that many payload bytes; the largest payload is 65 535
//! bytes.  `frame` builds such a message, `deframe` takes one apart,
//! and `lemma_frame_round_trip` shows that the two compose to the
//! identity on every admissible payload.

use crate::bytes::be16;
use crate::bytes::u16_hi;
use crate::bytes::u16_lo;
use crate::bytes::read_be_u16;
use crate::bytes::write_be_u16;
use vstd::prelude::*;

verus! {

/// Largest payload a frame can carry.
pub const MAX_FRAME_PAYLOAD: usize = 65535;

/// The frame image of a payload: two length bytes, then the payload.
pub open spec fn frame_spec(payload: Seq<u8>) -> Seq<u8>
    recommends
        payload.len() <= MAX_FRAME_PAYLOAD,
{
    seq![u16_hi(payload.len() as u16), u16_lo(payload.len() as u16)] + payload
}

/// Whether a byte sequence is one complete well-formed frame.
pub open spec fn is_frame(b: Seq<u8>) -> bool {
    &&& b.len() >= 2
    &&& b.len() - 2 <= MAX_FRAME_PAYLOAD
    &&& be16(b[0], b[1]) == b.len() - 2
}

/// The payload of one complete well-formed frame.
pub open spec fn deframe_spec(b: Seq<u8>) -> Option<Seq<u8>> {
    if is_frame(b) {
        Some(b.skip(2))
    } else {
        None
    }
}

/// Why a buffer is not one complete frame.
#[derive(Debug, Clone, Copy, PartialEq, Eq, Structural)]
pub enum FrameError {
    /// Fewer than two header bytes.
    TooShort,
    /// The length header does not match the bytes that follow.
    LengthMismatch,
}

/// Builds the frame for a payload.
pub fn frame(payload: &[u8]) -> (r: Vec<u8>)
    requires
        payload@.len() <= MAX_FRAME_PAYLOAD,
    ensures
        r@ == frame_spec(payload@),
        is_frame(r@),
{
    let len: u16 = payload.len() as u16;
    let (hi, lo) = write_be_u16(len);
    let mut r: Vec<u8> = Vec::new();
    r.push(hi);
    r.push(lo);
    let mut i: usize = 0;
    while i < payload.len()
        invariant
            i <= payload@.len(),
            payload@.len() <= MAX_FRAME_PAYLOAD,
            r@.len() == 2 + i,
            r@ == seq![u16_hi(payload@.len() as u16), u16_lo(payload@.len() as u16)]
                + payload@.take(i as int),
        decreases payload@.len() - i,
    {
        r.push(payload[i]);
        i += 1;
        proof {
            assert(payload@.take(i as int) == payload@.take(i - 1).push(payload@[i - 1]));
        }
    }
    proof {
        assert(payload@.take(payload@.len() as int) == payload@);
        assert(r@.skip(2) =~= payload@);
    }
    r
}

/// Takes one complete frame apart, returning its payload.
pub fn deframe(buf: &[u8]) -> (r: Result<Vec<u8>, FrameError>)
    ensures
        r is Ok <==> is_frame(buf@),
        r matches Ok(p) ==> p@ == deframe_spec(buf@)->Some_0,
        r matches Err(e) ==> (e == FrameError::TooShort <==> buf@.len() < 2),
{
    if buf.len() < 2 {
        return Err(FrameError::TooShort);
    }
    let declared: u16 = read_be_u16(buf[0], buf[1]);
    if (declared as usize) != buf.len() - 2 {
        return Err(FrameError::LengthMismatch);
    }
    let mut p: Vec<u8> = Vec::new();
    let mut i: usize = 2;
    while i < buf.len()
        invariant
            2 <= i <= buf@.len(),
            p@ == buf@.subrange(2, i as int),
        decreases buf@.len() - i,
    {
        p.push(buf[i]);
        i += 1;
        proof {
            assert(buf@.subrange(2, i as int) == buf@.subrange(2, i - 1).push(buf@[i - 1]));
        }
    }
    proof {
        assert(p@ =~= buf@.skip(2));
    }
    Ok(p)
}

/// The two header bytes that announce a payload of `len` bytes.
pub fn header_bytes(len: u16) -> (r: (u8, u8))
    ensures
        be16(r.0, r.1) == len,
{
    write_be_u16(len)
}

/// The payload length announced by the two header bytes of a frame.
pub fn payload_len(b0: u8, b1: u8) -> (r: u16)
    ensures
        r == be16(b0, b1),
        r as int <= MAX_FRAME_PAYLOAD,
{
    read_be_u16(b0, b1)
}

/// Framing round-trip: taking apart the frame of any payload of at
/// most 65 535 bytes gives back exactly that payload.
pub proof fn lemma_frame_round_trip(payload: Seq<u8>)
    requires
        payload.len() <= MAX_FRAME_PAYLOAD,
    ensures
        deframe_spec(frame_spec(payload)) == Some(payload),
{
    let f = frame_spec(payload);
    assert(f[0] == u16_hi(payload.len() as u16));
    assert(f[1] == u16_lo(payload.len() as u16));
    assert(be16(f[0], f[1]) == payload.len());
    assert(is_frame(f));
    assert(f.skip(2) =~= payload);
}

} // verus!
