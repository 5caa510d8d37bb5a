//! The encrypted session between listener and gateway.
//!
//! Both sides run a Noise XX handshake with the pre-shared key mixed
//! in at the third message, over Curve25519, ChaCha20-Poly1305 and
//! SHA-256; the `snow` crate does the cryptography.  Every handshake
//! and transport message travels inside a length frame.  The step
//! functions here build and consume the handshake messages in
//! order, stamp and encrypt outgoing records, and decrypt and decode
//! incoming ones; the embedding programs only move the framed bytes
//! across the socket.

use crate::bytes::be64;
use crate::bytes::read_be_u64;
use crate::bytes::write_be_u64;
use crate::convert::Ruuvi;
use crate::convert::convert_spec;
use crate::frame::MAX_FRAME_PAYLOAD;
use crate::frame::frame;
use crate::frame::is_frame;
use crate::record::RecordError;
use crate::record::decodable;
use crate::record::decode_record;
use crate::record::encode_record;
use crate::record::encode_spec;
use crate::schema::RuuviRaw;
use crate::timesync::TimeAnchor;
use crate::timesync::anchor;
use crate::timesync::delay_of;
use crate::timesync::stamp_of;
use vstd::prelude::*;

verus! {

#[verifier::external_type_specification]
#[verifier::external_body]
pub struct ExHandshakeState(snow::HandshakeState);

#[verifier::external_type_specification]
#[verifier::external_body]
pub struct ExTransportState(snow::TransportState);

#[verifier::external_type_specification]
#[verifier::external_body]
pub struct ExSnowError(snow::Error);

/// The Noise pattern both sides run.
pub const NOISE_PATTERN: &'static str = "Noise_XXpsk3_25519_ChaChaPoly_SHA256";

/// Relies on snow's `Builder`: `new` with the XXpsk3 pattern,
/// `generate_keypair` for a fresh static key, `local_private_key`,
/// `psk` at position 3, and `build_initiator`.
#[verifier::external_body]
fn noise_initiator(psk: &[u8; 32]) -> (r: Result<snow::HandshakeState, snow::Error>)
{
    let params: snow::params::NoiseParams = NOISE_PATTERN.parse()?;
    let builder = snow::Builder::new(params);
    let keypair = builder.generate_keypair()?;
    builder.local_private_key(&keypair.private)?.psk(3, psk)?.build_initiator()
}

/// Relies on snow's `Builder`: as for the initiator, ending in
/// `build_responder`.
#[verifier::external_body]
fn noise_responder(psk: &[u8; 32]) -> (r: Result<snow::HandshakeState, snow::Error>)
{
    let params: snow::params::NoiseParams = NOISE_PATTERN.parse()?;
    let builder = snow::Builder::new(params);
    let keypair = builder.generate_keypair()?;
    builder.local_private_key(&keypair.private)?.psk(3, psk)?.build_responder()
}

/// Relies on `HandshakeState::write_message`: builds the next
/// handshake message around a payload.
#[verifier::external_body]
fn hs_write(hs: &mut snow::HandshakeState, payload: &[u8]) -> (r: Result<Vec<u8>, snow::Error>)
{
    let mut buf = vec![0u8; 65551];
    match hs.write_message(payload, &mut buf) {
        Ok(n) => {
            buf.truncate(n);
            Ok(buf)
        },
        Err(e) => Err(e),
    }
}

/// Relies on `HandshakeState::read_message`: consumes the next
/// handshake message, yielding its payload; a message over 65 535
/// bytes is refused.
#[verifier::external_body]
fn hs_read(hs: &mut snow::HandshakeState, message: &[u8]) -> (r: Result<Vec<u8>, snow::Error>)
    ensures
        message@.len() > 65535 ==> r is Err,
{
    let mut buf = vec![0u8; 65551];
    match hs.read_message(message, &mut buf) {
        Ok(n) => {
            buf.truncate(n);
            Ok(buf)
        },
        Err(e) => Err(e),
    }
}

/// Relies on `HandshakeState::into_transport_mode`: splits a
/// finished handshake into the transport cipher states.
#[verifier::external_body]
fn hs_into_transport(hs: snow::HandshakeState) -> (r: Result<snow::TransportState, snow::Error>)
{
    hs.into_transport_mode()
}

/// Relies on `TransportState::write_message`: the ciphertext of a
/// payload is sixteen tag bytes longer than the payload, and a
/// payload that would exceed the 65 535-byte message limit is
/// refused.
#[verifier::external_body]
fn tp_write(tp: &mut snow::TransportState, payload: &[u8]) -> (r: Result<Vec<u8>, snow::Error>)
    ensures
        r matches Ok(c) ==> c@.len() == payload@.len() + 16,
        payload@.len() + 16 > 65535 ==> r is Err,
{
    let mut buf = vec![0u8; 65551];
    match tp.write_message(payload, &mut buf) {
        Ok(n) => {
            buf.truncate(n);
            Ok(buf)
        },
        Err(e) => Err(e),
    }
}

/// Relies on `TransportState::read_message`: a decrypted payload is
/// sixteen tag bytes shorter than the ciphertext; a tampered or
/// truncated ciphertext, or one over 65 535 bytes, is refused.
#[verifier::external_body]
fn tp_read(tp: &mut snow::TransportState, message: &[u8]) -> (r: Result<Vec<u8>, snow::Error>)
    ensures
        r matches Ok(p) ==> message@.len() >= 16 && p@.len() == message@.len() - 16,
        message@.len() > 65535 ==> r is Err,
{
    let mut buf = vec![0u8; 65551];
    match tp.read_message(message, &mut buf) {
        Ok(n) => {
            buf.truncate(n);
            Ok(buf)
        },
        Err(e) => Err(e),
    }
}

/// Why a session step failed.
#[derive(Debug, Clone, Copy, PartialEq, Eq, Structural)]
pub enum SessionError {
    /// The cryptography refused: a handshake step, an encryption or
    /// a decryption failed.
    Noise,
    /// The payload is too large for one framed message.
    TooLarge,
    /// The time reply does not carry exactly eight bytes.
    BadTimeReply,
}

/// Starts the initiator's handshake: a fresh handshake state and
/// the framed first message.
pub fn initiator_first_message(psk: &[u8; 32]) -> (r: Result<
    (snow::HandshakeState, Vec<u8>),
    SessionError,
>)
    ensures
        r matches Ok(p) ==> is_frame(p.1@),
{
    let mut hs = match noise_initiator(psk) {
        Ok(hs) => hs,
        Err(_) => {
            return Err(SessionError::Noise);
        },
    };
    let msg = match hs_write(&mut hs, &[]) {
        Ok(msg) => msg,
        Err(_) => {
            return Err(SessionError::Noise);
        },
    };
    if msg.len() > MAX_FRAME_PAYLOAD {
        return Err(SessionError::TooLarge);
    }
    Ok((hs, frame(msg.as_slice())))
}

/// Consumes the responder's reply, the second handshake message,
/// handed in with its frame already removed.
pub fn initiator_read_reply(hs: &mut snow::HandshakeState, payload: &[u8]) -> (r: Result<
    (),
    SessionError,
>) {
    match hs_read(hs, payload) {
        Ok(_) => Ok(()),
        Err(_) => Err(SessionError::Noise),
    }
}

/// Finishes the initiator's handshake: the framed third message,
/// which mixes in the pre-shared key, and the transport state.
pub fn initiator_last_message(hs: snow::HandshakeState) -> (r: Result<
    (snow::TransportState, Vec<u8>),
    SessionError,
>)
    ensures
        r matches Ok(p) ==> is_frame(p.1@),
{
    let mut hs = hs;
    let msg = match hs_write(&mut hs, &[]) {
        Ok(msg) => msg,
        Err(_) => {
            return Err(SessionError::Noise);
        },
    };
    if msg.len() > MAX_FRAME_PAYLOAD {
        return Err(SessionError::TooLarge);
    }
    let framed = frame(msg.as_slice());
    match hs_into_transport(hs) {
        Ok(tp) => Ok((tp, framed)),
        Err(_) => Err(SessionError::Noise),
    }
}

/// Starts the responder's handshake: a fresh handshake state.
pub fn responder_new(psk: &[u8; 32]) -> (r: Result<snow::HandshakeState, SessionError>) {
    match noise_responder(psk) {
        Ok(hs) => Ok(hs),
        Err(_) => Err(SessionError::Noise),
    }
}

/// Consumes the initiator's first message and builds the framed
/// reply, the second handshake message.
pub fn responder_reply(hs: &mut snow::HandshakeState, payload: &[u8]) -> (r: Result<
    Vec<u8>,
    SessionError,
>)
    ensures
        r matches Ok(v) ==> is_frame(v@),
{
    if let Err(_) = hs_read(hs, payload) {
        return Err(SessionError::Noise);
    }
    let msg = match hs_write(hs, &[]) {
        Ok(msg) => msg,
        Err(_) => {
            return Err(SessionError::Noise);
        },
    };
    if msg.len() > MAX_FRAME_PAYLOAD {
        return Err(SessionError::TooLarge);
    }
    Ok(frame(msg.as_slice()))
}

/// Consumes the initiator's third message and splits into transport
/// mode.
pub fn responder_finish(hs: snow::HandshakeState, payload: &[u8]) -> (r: Result<
    snow::TransportState,
    SessionError,
>) {
    let mut hs = hs;
    if let Err(_) = hs_read(&mut hs, payload) {
        return Err(SessionError::Noise);
    }
    match hs_into_transport(hs) {
        Ok(tp) => Ok(tp),
        Err(_) => Err(SessionError::Noise),
    }
}

/// Encrypts a payload and frames the ciphertext.  The payload is
/// too large exactly when it cannot fit one frame beside the
/// sixteen tag bytes; a payload that fits can still be refused by
/// the cipher state itself.
pub fn encrypt_frame(tp: &mut snow::TransportState, plain: &[u8]) -> (r: Result<
    Vec<u8>,
    SessionError,
>)
    ensures
        plain@.len() + 16 > MAX_FRAME_PAYLOAD ==> (r == Err::<Vec<u8>, SessionError>(
            SessionError::TooLarge,
        )),
        plain@.len() + 16 <= MAX_FRAME_PAYLOAD ==> r != Err::<Vec<u8>, SessionError>(
            SessionError::TooLarge,
        ),
        r matches Ok(v) ==> (is_frame(v@) && v@.len() == plain@.len() + 18),
{
    if plain.len() > MAX_FRAME_PAYLOAD - 16 {
        return Err(SessionError::TooLarge);
    }
    match tp_write(tp, plain) {
        Ok(cipher) => Ok(frame(cipher.as_slice())),
        Err(_) => Err(SessionError::Noise),
    }
}

/// Decrypts the payload of one received frame.
pub fn decrypt_payload(tp: &mut snow::TransportState, payload: &[u8]) -> (r: Result<
    Vec<u8>,
    SessionError,
>)
    ensures
        r matches Ok(p) ==> (payload@.len() >= 16 && p@.len() == payload@.len() - 16),
        r is Err ==> r == Err::<Vec<u8>, SessionError>(SessionError::Noise),
{
    match tp_read(tp, payload) {
        Ok(plain) => Ok(plain),
        Err(_) => Err(SessionError::Noise),
    }
}

/// Builds the framed, encrypted time request: an empty payload,
/// sent right after the handshake.
pub fn time_request(tp: &mut snow::TransportState) -> (r: Result<Vec<u8>, SessionError>)
    ensures
        r matches Ok(v) ==> (is_frame(v@) && v@.len() == 18),
        r != Err::<Vec<u8>, SessionError>(SessionError::TooLarge),
{
    encrypt_frame(tp, &[])
}

/// Builds the framed, encrypted time reply carrying the wall clock
/// as eight big-endian bytes.
pub fn serve_time(tp: &mut snow::TransportState, now_ms: u64) -> (r: Result<Vec<u8>, SessionError>)
    ensures
        r matches Ok(v) ==> (is_frame(v@) && v@.len() == 26),
        r != Err::<Vec<u8>, SessionError>(SessionError::TooLarge),
{
    let body = write_be_u64(now_ms);
    encrypt_frame(tp, body.as_slice())
}

/// Interprets a decrypted time reply: exactly eight bytes are
/// accepted, read big-endian as the server's Unix milliseconds, and
/// the anchor is built from them and the round trip.
pub fn time_anchor_of(plain: &[u8], t1_ms: u64, t2_ms: u64) -> (r: Result<
    TimeAnchor,
    SessionError,
>)
    requires
        t1_ms <= t2_ms,
    ensures
        r is Ok <==> plain@.len() == 8,
        r matches Ok(a) ==> a == crate::timesync::anchor_spec(t1_ms, t2_ms, be64(plain@) as u64),
        r is Err ==> r == Err::<TimeAnchor, SessionError>(SessionError::BadTimeReply),
{
    if plain.len() != 8 {
        return Err(SessionError::BadTimeReply);
    }
    let server_ms = read_be_u64(plain, 0);
    proof {
        assert(plain@.subrange(0, 8) =~= plain@);
    }
    Ok(anchor(t1_ms, t2_ms, server_ms))
}

/// Decrypts the time reply and builds the anchor from the round
/// trip: request sent at monotonic `t1_ms`, reply received at
/// `t2_ms`.  What the anchor is for each decrypted payload is
/// `time_anchor_of`'s contract; the payload itself is the cipher's.
pub fn read_time_reply(
    tp: &mut snow::TransportState,
    payload: &[u8],
    t1_ms: u64,
    t2_ms: u64,
) -> (r: Result<TimeAnchor, SessionError>)
    requires
        t1_ms <= t2_ms,
    ensures
        r matches Ok(a) ==> a.ref_local_ms == t1_ms + delay_of(t1_ms, t2_ms),
        r matches Err(e) ==> (e == SessionError::Noise || e == SessionError::BadTimeReply),
{
    let plain = match decrypt_payload(tp, payload) {
        Ok(plain) => plain,
        Err(e) => {
            return Err(e);
        },
    };
    time_anchor_of(plain.as_slice(), t1_ms, t2_ms)
}

/// The record as it goes on the wire: stamped with its wall clock
/// when the anchor exists, untouched when it does not.
pub open spec fn stamped_spec(rec: RuuviRaw, a: Option<TimeAnchor>, t_ms: u64) -> RuuviRaw {
    match a {
        Option::Some(a) => rec.with_timestamp(Some(stamp_of(a, t_ms))),
        Option::None => rec,
    }
}

/// Stamps a record captured at monotonic `t_ms` with its wall
/// clock, if the anchor exists.
pub fn stamp_record(rec: RuuviRaw, a: &Option<TimeAnchor>, t_ms: u64) -> (r: RuuviRaw)
    ensures
        r == stamped_spec(rec, *a, t_ms),
{
    match a {
        Option::Some(a) => {
            let mut rec = rec;
            rec.set_timestamp(Some(crate::timesync::wall_clock_of(a, t_ms)));
            rec
        },
        Option::None => rec,
    }
}

/// Stamps, encodes, encrypts and frames one record for the wire.
pub fn encode_stamped_frame(
    tp: &mut snow::TransportState,
    rec: RuuviRaw,
    a: &Option<TimeAnchor>,
    t_ms: u64,
) -> (r: Result<Vec<u8>, SessionError>)
    ensures
        r matches Ok(v) ==> (is_frame(v@) && v@.len() == encode_spec(
            stamped_spec(rec, *a, t_ms),
        ).len() + 18),
        r != Err::<Vec<u8>, SessionError>(SessionError::TooLarge),
{
    let stamped = stamp_record(rec, a, t_ms);
    let bytes = encode_record(&stamped);
    encrypt_frame(tp, bytes.as_slice())
}

/// Decodes a decrypted payload and converts it to physical
/// quantities: accepted exactly when the payload is a record
/// encoding, and then the decoded image of the one record that
/// encodes to it.
pub fn decode_and_convert(plain: &[u8]) -> (r: Result<Ruuvi, RecordError>)
    ensures
        r is Ok <==> decodable(plain@),
        r matches Ok(d) ==> exists|rec: RuuviRaw|
            #[trigger] encode_spec(rec) == plain@ && d == convert_spec(rec),
{
    let rec = match decode_record(plain) {
        Ok(rec) => rec,
        Err(e) => {
            return Err(e);
        },
    };
    let d = match &rec {
        RuuviRaw::V2(v) => Ruuvi::V2(crate::convert::RuuviV2::from_raw(v)),
        RuuviRaw::E1(v) => Ruuvi::E1(crate::convert::RuuviE1::from_raw(v)),
    };
    proof {
        assert(encode_spec(rec) == plain@ && d == convert_spec(rec));
    }
    Ok(d)
}

/// Why a received data frame was not stored.
#[derive(Debug, Clone, Copy, PartialEq, Eq, Structural)]
pub enum DataFrameError {
    /// The frame did not decrypt: fatal to the session.
    Session(SessionError),
    /// The plaintext is no record encoding: the frame is dropped
    /// and the session goes on.
    Record(RecordError),
}

/// Decrypts one received data frame and decodes it to physical
/// quantities.
pub fn process_data_frame(tp: &mut snow::TransportState, payload: &[u8]) -> (r: Result<
    Ruuvi,
    DataFrameError,
>)
    ensures
        r matches Ok(d) ==> exists|rec: RuuviRaw| d == #[trigger] convert_spec(rec),
{
    let plain = match decrypt_payload(tp, payload) {
        Ok(plain) => plain,
        Err(e) => {
            return Err(DataFrameError::Session(e));
        },
    };
    match decode_and_convert(plain.as_slice()) {
        Ok(d) => Ok(d),
        Err(e) => Err(DataFrameError::Record(e)),
    }
}

} // verus!
