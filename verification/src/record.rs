//! Compact byte codec for advertisement records.
//!
//! A record travels between listener and gateway as its format tag
//! followed by every field at a fixed width, big-endian, in the order
//! of the layout's documentation; the optional timestamp is a
//! presence byte followed, when present, by eight bytes.  No
//! variable-length integers are used, so both endpoints agree on
//! every offset.  `decode_record` accepts exactly the encodings that
//! `encode_record` produces, and returns the one record that
//! produces its input.

use crate::bytes::be16;
use crate::bytes::be32;
use crate::bytes::be64;
use crate::bytes::be_i16;
use crate::bytes::i16_hi;
use crate::bytes::i16_lo;
use crate::bytes::lemma_be16_bytes;
use crate::bytes::lemma_be32_bytes;
use crate::bytes::lemma_be64_bytes;
use crate::bytes::lemma_be_i16_bytes;
use crate::bytes::read_be_i16;
use crate::bytes::read_be_u16;
use crate::bytes::read_be_u32;
use crate::bytes::read_be_u64;
use crate::bytes::u16_hi;
use crate::bytes::u16_lo;
use crate::bytes::u32_be_bytes;
use crate::bytes::u64_be_bytes;
use crate::bytes::write_be_i16;
use crate::bytes::write_be_u16;
use crate::bytes::write_be_u32;
use crate::bytes::write_be_u64;
use crate::schema::RuuviRaw;
use crate::schema::RuuviRawE1;
use crate::schema::RuuviRawV2;
use vstd::prelude::*;

verus! {

/// The unsigned byte that carries a signed one, two's complement.
pub open spec fn i8_as_u8(v: i8) -> u8 {
    if v >= 0 {
        v as u8
    } else {
        (v + 256) as u8
    }
}

/// The signed value carried by an unsigned byte, two's complement.
pub open spec fn u8_as_i8(b: u8) -> i8 {
    if b < 128 {
        b as i8
    } else {
        (b - 256) as i8
    }
}

/// Reads one two's-complement byte.
pub fn read_i8(b: u8) -> (r: i8)
    ensures
        r == u8_as_i8(b),
        i8_as_u8(r) == b,
{
    if b < 128 {
        b as i8
    } else {
        (-(256i16 - b as i16)) as i8
    }
}

/// Writes one two's-complement byte.
pub fn write_i8(v: i8) -> (r: u8)
    ensures
        r == i8_as_u8(v),
        u8_as_i8(r) == v,
{
    if v >= 0 {
        v as u8
    } else {
        ((v as i16) + 256) as u8
    }
}

/// The two big-endian bytes of an unsigned 16-bit field.
pub open spec fn enc_u16(v: u16) -> Seq<u8> {
    seq![u16_hi(v), u16_lo(v)]
}

/// The two big-endian two's-complement bytes of a signed 16-bit field.
pub open spec fn enc_i16(v: i16) -> Seq<u8> {
    seq![i16_hi(v), i16_lo(v)]
}

/// The encoding of the optional timestamp: a presence byte, then
/// eight big-endian bytes when present.
pub open spec fn enc_ts(t: Option<u64>) -> Seq<u8> {
    match t {
        Option::None => seq![0u8],
        Option::Some(v) => seq![1u8] + u64_be_bytes(v),
    }
}

/// The byte encoding of a V2 record: 26 bytes, or 34 with a
/// timestamp.
pub open spec fn encode_v2_spec(v: RuuviRawV2) -> Seq<u8> {
    seq![0x05u8] + enc_i16(v.temp) + enc_u16(v.humidity) + enc_u16(v.pressure) + enc_i16(v.acc_x)
        + enc_i16(v.acc_y) + enc_i16(v.acc_z) + enc_u16(v.power_info) + seq![v.movement_counter]
        + enc_u16(v.measurement_seq) + v.mac@ + enc_ts(v.timestamp) + seq![i8_as_u8(v.rssi)]
}

/// The byte encoding of an E1 record: 39 bytes, or 47 with a
/// timestamp.
pub open spec fn encode_e1_spec(v: RuuviRawE1) -> Seq<u8> {
    seq![0xE1u8] + enc_i16(v.temp) + enc_u16(v.humidity) + enc_u16(v.pressure) + enc_u16(v.pm1_0)
        + enc_u16(v.pm2_5) + enc_u16(v.pm4_0) + enc_u16(v.pm10_0) + enc_u16(v.co2) + enc_u16(
        v.voc_index,
    ) + enc_u16(v.nox_index) + u32_be_bytes(v.luminosity) + u32_be_bytes(v.measurement_seq)
        + seq![v.flags] + v.mac@ + enc_ts(v.timestamp) + seq![i8_as_u8(v.rssi), i8_as_u8(v.tx_power)]
}

/// The byte encoding of a record of either layout.
pub open spec fn encode_spec(r: RuuviRaw) -> Seq<u8> {
    match r {
        RuuviRaw::V2(v) => encode_v2_spec(v),
        RuuviRaw::E1(v) => encode_e1_spec(v),
    }
}

/// Whether a buffer has the tag, length and presence byte of some
/// record encoding.
pub open spec fn decodable(b: Seq<u8>) -> bool {
    b.len() >= 1 && (
    (b[0] == 0x05 && ((b.len() == 26 && b[24] == 0) || (b.len() == 34 && b[24] == 1)))
    || (b[0] == 0xE1 && ((b.len() == 39 && b[36] == 0) || (b.len() == 47 && b[36] == 1))))
}

/// Why a buffer is no record encoding.
#[derive(Debug, Clone, Copy, PartialEq, Eq, Structural)]
pub enum RecordError {
    /// The buffer is empty or its first byte names no known layout.
    UnknownTag,
    /// The tag is known but the length or the timestamp presence
    /// byte does not fit any encoding of that layout.
    BadShape,
}

/// Appends two big-endian bytes of an unsigned 16-bit field.
fn push_u16(out: &mut Vec<u8>, v: u16)
    ensures
        final(out)@ == old(out)@ + enc_u16(v),
{
    let (hi, lo) = write_be_u16(v);
    out.push(hi);
    out.push(lo);
    proof {
        assert(out@ =~= old(out)@ + enc_u16(v));
    }
}

/// Appends two big-endian two's-complement bytes of a signed 16-bit
/// field.
fn push_i16(out: &mut Vec<u8>, v: i16)
    ensures
        final(out)@ == old(out)@ + enc_i16(v),
{
    let (hi, lo) = write_be_i16(v);
    out.push(hi);
    out.push(lo);
    proof {
        assert(out@ =~= old(out)@ + enc_i16(v));
    }
}

/// Appends four big-endian bytes of an unsigned 32-bit field.
fn push_u32(out: &mut Vec<u8>, v: u32)
    ensures
        final(out)@ == old(out)@ + u32_be_bytes(v),
{
    let (b0, b1, b2, b3) = write_be_u32(v);
    out.push(b0);
    out.push(b1);
    out.push(b2);
    out.push(b3);
    proof {
        assert(out@ =~= old(out)@ + u32_be_bytes(v));
    }
}

/// Appends the six bytes of a MAC address.
fn push_mac(out: &mut Vec<u8>, mac: &[u8; 6])
    ensures
        final(out)@ == old(out)@ + mac@,
{
    let mut i: usize = 0;
    while i < 6
        invariant
            i <= 6,
            out@ == old(out)@ + mac@.take(i as int),
        decreases 6 - i,
    {
        out.push(mac[i]);
        i += 1;
        proof {
            assert(mac@.take(i as int) =~= mac@.take(i - 1).push(mac@[i - 1]));
            assert(out@ =~= old(out)@ + mac@.take(i as int));
        }
    }
    proof {
        assert(mac@.take(6) =~= mac@);
    }
}

/// Appends the optional timestamp: presence byte, then eight bytes
/// when present.
fn push_ts(out: &mut Vec<u8>, t: &Option<u64>)
    ensures
        final(out)@ == old(out)@ + enc_ts(*t),
{
    match t {
        Option::None => {
            out.push(0);
            proof {
                assert(out@ =~= old(out)@ + enc_ts(None::<u64>));
            }
        },
        Option::Some(v) => {
            out.push(1);
            let mut bytes = write_be_u64(*v);
            out.append(&mut bytes);
            proof {
                assert(out@ =~= old(out)@ + enc_ts(Some(*v)));
            }
        },
    }
}

/// Encodes a record to its wire bytes.
#[verifier::rlimit(60)]
pub fn encode_record(r: &RuuviRaw) -> (out: Vec<u8>)
    ensures
        out@ == encode_spec(*r),
        decodable(out@),
{
    let mut out: Vec<u8> = Vec::new();
    match r {
        RuuviRaw::V2(v) => {
            out.push(0x05);
            push_i16(&mut out, v.temp);
            push_u16(&mut out, v.humidity);
            push_u16(&mut out, v.pressure);
            push_i16(&mut out, v.acc_x);
            push_i16(&mut out, v.acc_y);
            push_i16(&mut out, v.acc_z);
            push_u16(&mut out, v.power_info);
            out.push(v.movement_counter);
            push_u16(&mut out, v.measurement_seq);
            push_mac(&mut out, &v.mac);
            push_ts(&mut out, &v.timestamp);
            out.push(write_i8(v.rssi));
            proof {
                assert(out@ =~= encode_v2_spec(*v));
                assert(out@.len() == if v.timestamp is Some {
                    34int
                } else {
                    26int
                });
            }
        },
        RuuviRaw::E1(v) => {
            out.push(0xE1);
            push_i16(&mut out, v.temp);
            push_u16(&mut out, v.humidity);
            push_u16(&mut out, v.pressure);
            push_u16(&mut out, v.pm1_0);
            push_u16(&mut out, v.pm2_5);
            push_u16(&mut out, v.pm4_0);
            push_u16(&mut out, v.pm10_0);
            push_u16(&mut out, v.co2);
            push_u16(&mut out, v.voc_index);
            push_u16(&mut out, v.nox_index);
            push_u32(&mut out, v.luminosity);
            push_u32(&mut out, v.measurement_seq);
            out.push(v.flags);
            push_mac(&mut out, &v.mac);
            push_ts(&mut out, &v.timestamp);
            out.push(write_i8(v.rssi));
            out.push(write_i8(v.tx_power));
            proof {
                assert(out@ =~= encode_e1_spec(*v));
                assert(out@.len() == if v.timestamp is Some {
                    47int
                } else {
                    39int
                });
            }
        },
    }
    out
}

/// Decodes wire bytes to the one record that encodes to them.
/// Exactly the buffers some record encodes to are accepted.
#[verifier::rlimit(60)]
pub fn decode_record(b: &[u8]) -> (r: Result<RuuviRaw, RecordError>)
    ensures
        r is Ok <==> decodable(b@),
        r matches Ok(rec) ==> encode_spec(rec) == b@,
        r matches Err(e) ==> (e == RecordError::UnknownTag <==> (b@.len() == 0 || (b@[0] != 0x05
            && b@[0] != 0xE1))),
{
    if b.len() == 0 {
        return Err(RecordError::UnknownTag);
    }
    if b[0] == 0x05 {
        if !((b.len() == 26 && b[24] == 0) || (b.len() == 34 && b[24] == 1)) {
            return Err(RecordError::BadShape);
        }
        let timestamp: Option<u64> = if b[24] == 1 {
            Some(read_be_u64(b, 25))
        } else {
            None
        };
        let rssi_at: usize = if b.len() == 34 {
            33
        } else {
            25
        };
        let mac = [b[18], b[19], b[20], b[21], b[22], b[23]];
        let rec = RuuviRawV2::new(
            read_be_i16(b[1], b[2]),
            read_be_u16(b[3], b[4]),
            read_be_u16(b[5], b[6]),
            read_be_i16(b[7], b[8]),
            read_be_i16(b[9], b[10]),
            read_be_i16(b[11], b[12]),
            read_be_u16(b[13], b[14]),
            b[15],
            read_be_u16(b[16], b[17]),
            mac,
            timestamp,
            read_i8(b[rssi_at]),
        );
        proof {
            lemma_be_i16_bytes(b@[1], b@[2]);
            lemma_be16_bytes(b@[3], b@[4]);
            lemma_be16_bytes(b@[5], b@[6]);
            lemma_be_i16_bytes(b@[7], b@[8]);
            lemma_be_i16_bytes(b@[9], b@[10]);
            lemma_be_i16_bytes(b@[11], b@[12]);
            lemma_be16_bytes(b@[13], b@[14]);
            lemma_be16_bytes(b@[16], b@[17]);
            if b@[24] == 1 {
                lemma_be64_bytes(b@.subrange(25, 33));
            }
            assert(mac@ =~= b@.subrange(18, 24));
            assert(encode_v2_spec(rec) =~= b@);
        }
        Ok(RuuviRaw::V2(rec))
    } else if b[0] == 0xE1 {
        if !((b.len() == 39 && b[36] == 0) || (b.len() == 47 && b[36] == 1)) {
            return Err(RecordError::BadShape);
        }
        let timestamp: Option<u64> = if b[36] == 1 {
            Some(read_be_u64(b, 37))
        } else {
            None
        };
        let tail_at: usize = if b.len() == 47 {
            46
        } else {
            38
        };
        let mac = [b[30], b[31], b[32], b[33], b[34], b[35]];
        let rec = RuuviRawE1::new(
            read_be_i16(b[1], b[2]),
            read_be_u16(b[3], b[4]),
            read_be_u16(b[5], b[6]),
            read_be_u16(b[7], b[8]),
            read_be_u16(b[9], b[10]),
            read_be_u16(b[11], b[12]),
            read_be_u16(b[13], b[14]),
            read_be_u16(b[15], b[16]),
            read_be_u16(b[17], b[18]),
            read_be_u16(b[19], b[20]),
            read_be_u32(b[21], b[22], b[23], b[24]),
            read_be_u32(b[25], b[26], b[27], b[28]),
            b[29],
            mac,
            timestamp,
            read_i8(b[tail_at - 1]),
            read_i8(b[tail_at]),
        );
        proof {
            lemma_be_i16_bytes(b@[1], b@[2]);
            lemma_be16_bytes(b@[3], b@[4]);
            lemma_be16_bytes(b@[5], b@[6]);
            lemma_be16_bytes(b@[7], b@[8]);
            lemma_be16_bytes(b@[9], b@[10]);
            lemma_be16_bytes(b@[11], b@[12]);
            lemma_be16_bytes(b@[13], b@[14]);
            lemma_be16_bytes(b@[15], b@[16]);
            lemma_be16_bytes(b@[17], b@[18]);
            lemma_be16_bytes(b@[19], b@[20]);
            lemma_be32_bytes(seq![b@[21], b@[22], b@[23], b@[24]]);
            lemma_be32_bytes(seq![b@[25], b@[26], b@[27], b@[28]]);
            if b@[36] == 1 {
                lemma_be64_bytes(b@.subrange(37, 45));
            }
            assert(mac@ =~= b@.subrange(30, 36));
            assert(encode_e1_spec(rec) =~= b@);
        }
        Ok(RuuviRaw::E1(rec))
    } else {
        Err(RecordError::UnknownTag)
    }
}

/// Encoding then decoding gives the record back: its encoding is
/// accepted, and no other record shares that encoding.
pub proof fn lemma_record_round_trip(r1: RuuviRaw, r2: RuuviRaw)
    requires
        encode_spec(r1) == encode_spec(r2),
    ensures
        decodable(encode_spec(r1)),
        r1 == r2,
{
    broadcast use vstd::array::axiom_array_ext_equal;

    lemma_encode_decodable(r1);
    let b = encode_spec(r1);
    match (r1, r2) {
        (RuuviRaw::V2(v1), RuuviRaw::V2(v2)) => {
            lemma_v2_fields_from_bytes(v1, b);
            lemma_v2_fields_from_bytes(v2, b);
            assert(v1.mac@ =~= b.subrange(18, 24) && v2.mac@ =~= b.subrange(18, 24));
            assert(v1.mac =~= v2.mac);
            assert(v1 == v2);
        },
        (RuuviRaw::E1(v1), RuuviRaw::E1(v2)) => {
            lemma_e1_fields_from_bytes(v1, b);
            lemma_e1_fields_from_bytes(v2, b);
            assert(v1.mac@ =~= b.subrange(30, 36) && v2.mac@ =~= b.subrange(30, 36));
            assert(v1.mac =~= v2.mac);
            assert(v1 == v2);
        },
        (RuuviRaw::V2(_), RuuviRaw::E1(_)) => {
            assert(encode_spec(r1)[0] == 0x05 && encode_spec(r2)[0] == 0xE1);
        },
        (RuuviRaw::E1(_), RuuviRaw::V2(_)) => {
            assert(encode_spec(r1)[0] == 0xE1 && encode_spec(r2)[0] == 0x05);
        },
    }
}

/// The encoding of any record has a decodable shape.
pub proof fn lemma_encode_decodable(r: RuuviRaw)
    ensures
        decodable(encode_spec(r)),
{
    match r {
        RuuviRaw::V2(v) => {
            assert(encode_spec(r).len() == if v.timestamp is Some {
                34int
            } else {
                26int
            });
            assert(encode_spec(r)[0] == 0x05);
            assert(encode_spec(r)[24] == if v.timestamp is Some {
                1u8
            } else {
                0u8
            });
        },
        RuuviRaw::E1(v) => {
            assert(encode_spec(r).len() == if v.timestamp is Some {
                47int
            } else {
                39int
            });
            assert(encode_spec(r)[0] == 0xE1);
            assert(encode_spec(r)[36] == if v.timestamp is Some {
                1u8
            } else {
                0u8
            });
        },
    }
}

/// Every field of a V2 record can be read back from its encoding.
proof fn lemma_v2_fields_from_bytes(v: RuuviRawV2, b: Seq<u8>)
    requires
        encode_v2_spec(v) == b,
    ensures
        v.temp == be_i16(b[1], b[2]),
        v.humidity == be16(b[3], b[4]),
        v.pressure == be16(b[5], b[6]),
        v.acc_x == be_i16(b[7], b[8]),
        v.acc_y == be_i16(b[9], b[10]),
        v.acc_z == be_i16(b[11], b[12]),
        v.power_info == be16(b[13], b[14]),
        v.movement_counter == b[15],
        v.measurement_seq == be16(b[16], b[17]),
        v.mac@ == b.subrange(18, 24),
        v.timestamp == if b[24] == 1 {
            Some(be64(b.subrange(25, 33)) as u64)
        } else {
            None::<u64>
        },
        v.rssi == u8_as_i8(b[if b.len() == 34 {
            33int
        } else {
            25int
        }]),
{
    crate::bytes::lemma_i16_round_trip(v.temp);
    crate::bytes::lemma_i16_round_trip(v.acc_x);
    crate::bytes::lemma_i16_round_trip(v.acc_y);
    crate::bytes::lemma_i16_round_trip(v.acc_z);
    assert(v.mac@ =~= b.subrange(18, 24));
    match v.timestamp {
        Option::None => {
            assert(b[24] == 0);
        },
        Option::Some(t) => {
            crate::bytes::lemma_u64_be_bytes(t);
            assert(b.subrange(25, 33) =~= u64_be_bytes(t));
        },
    }
}

/// Every field of an E1 record can be read back from its encoding.
proof fn lemma_e1_fields_from_bytes(v: RuuviRawE1, b: Seq<u8>)
    requires
        encode_e1_spec(v) == b,
    ensures
        v.temp == be_i16(b[1], b[2]),
        v.humidity == be16(b[3], b[4]),
        v.pressure == be16(b[5], b[6]),
        v.pm1_0 == be16(b[7], b[8]),
        v.pm2_5 == be16(b[9], b[10]),
        v.pm4_0 == be16(b[11], b[12]),
        v.pm10_0 == be16(b[13], b[14]),
        v.co2 == be16(b[15], b[16]),
        v.voc_index == be16(b[17], b[18]),
        v.nox_index == be16(b[19], b[20]),
        v.luminosity == be32(b.subrange(21, 25)),
        v.measurement_seq == be32(b.subrange(25, 29)),
        v.flags == b[29],
        v.mac@ == b.subrange(30, 36),
        v.timestamp == if b[36] == 1 {
            Some(be64(b.subrange(37, 45)) as u64)
        } else {
            None::<u64>
        },
        v.rssi == u8_as_i8(b[if b.len() == 47 {
            45int
        } else {
            37int
        }]),
        v.tx_power == u8_as_i8(b[if b.len() == 47 {
            46int
        } else {
            38int
        }]),
{
    crate::bytes::lemma_i16_round_trip(v.temp);
    crate::bytes::lemma_u32_be_bytes(v.luminosity);
    crate::bytes::lemma_u32_be_bytes(v.measurement_seq);
    assert(b.subrange(21, 25) =~= u32_be_bytes(v.luminosity));
    assert(b.subrange(25, 29) =~= u32_be_bytes(v.measurement_seq));
    assert(v.mac@ =~= b.subrange(30, 36));
    match v.timestamp {
        Option::None => {
            assert(b[36] == 0);
        },
        Option::Some(t) => {
            crate::bytes::lemma_u64_be_bytes(t);
            assert(b.subrange(37, 45) =~= u64_be_bytes(t));
        },
    }
}

} // verus!
