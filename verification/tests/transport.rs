use ruuvi_core::frame::{FrameError, deframe, frame, header_bytes, payload_len};
use ruuvi_core::record::{RecordError, decode_record, encode_record};
use ruuvi_core::schema::{RuuviRaw, RuuviRawE1, RuuviRawV2};
use ruuvi_core::session::{
    decrypt_payload, encode_stamped_frame, encrypt_frame, initiator_first_message,
    initiator_last_message, initiator_read_reply, process_data_frame, read_time_reply,
    responder_finish, responder_new, responder_reply, serve_time, stamp_record, time_anchor_of,
    time_request,
};
use ruuvi_core::convert::Ruuvi;
use ruuvi_core::timesync::TimeAnchor;

#[test]
fn frame_round_trip_concrete() {
    let payload = vec![1u8, 2, 3];
    let f = frame(&payload);
    assert_eq!(f, vec![0u8, 3, 1, 2, 3]);
    assert_eq!(deframe(&f).unwrap(), payload);

    let empty: Vec<u8> = Vec::new();
    let f = frame(&empty);
    assert_eq!(f, vec![0u8, 0]);
    assert_eq!(deframe(&f).unwrap(), empty);
}

#[test]
fn frame_round_trip_large() {
    let payload = vec![0xABu8; 65535];
    let f = frame(&payload);
    assert_eq!(f.len(), 65537);
    assert_eq!(deframe(&f).unwrap(), payload);
}

#[test]
fn deframe_rejects_bad_buffers() {
    assert!(matches!(deframe(&[0u8]), Err(FrameError::TooShort)));
    assert!(matches!(deframe(&[0u8, 2, 9]), Err(FrameError::LengthMismatch)));
    assert!(matches!(deframe(&[0u8, 1, 9, 9]), Err(FrameError::LengthMismatch)));
}

#[test]
fn frame_header_helpers() {
    let (hi, lo) = header_bytes(0x1234);
    assert_eq!((hi, lo), (0x12, 0x34));
    assert_eq!(payload_len(0x12, 0x34), 0x1234);
}

fn sample_v2(ts: Option<u64>) -> RuuviRaw {
    RuuviRaw::V2(RuuviRawV2::new(
        -3000, 40000, 23297, -16, 32, -64, 3000, 66, 4660, [0xCB, 0xB8, 0x33, 0x44, 0x55, 0x66],
        ts, -70,
    ))
}

fn sample_e1(ts: Option<u64>) -> RuuviRaw {
    RuuviRaw::E1(RuuviRawE1::new(
        4860, 37905, 23297, 12, 34, 56, 78, 900, 257, 129, 0x010203, 0x000105, 0xC0,
        [0xA0, 0xA1, 0xA2, 0xA3, 0xA4, 0xA5], ts, -60, 4,
    ))
}

fn assert_same_record(a: &RuuviRaw, b: &RuuviRaw) {
    match (a, b) {
        (RuuviRaw::V2(x), RuuviRaw::V2(y)) => {
            assert_eq!(x.temp, y.temp);
            assert_eq!(x.humidity, y.humidity);
            assert_eq!(x.pressure, y.pressure);
            assert_eq!(x.acc_x, y.acc_x);
            assert_eq!(x.acc_y, y.acc_y);
            assert_eq!(x.acc_z, y.acc_z);
            assert_eq!(x.power_info, y.power_info);
            assert_eq!(x.movement_counter, y.movement_counter);
            assert_eq!(x.measurement_seq, y.measurement_seq);
            assert_eq!(x.mac, y.mac);
            assert_eq!(x.timestamp, y.timestamp);
            assert_eq!(x.rssi, y.rssi);
        }
        (RuuviRaw::E1(x), RuuviRaw::E1(y)) => {
            assert_eq!(x.temp, y.temp);
            assert_eq!(x.humidity, y.humidity);
            assert_eq!(x.pressure, y.pressure);
            assert_eq!(x.pm1_0, y.pm1_0);
            assert_eq!(x.pm2_5, y.pm2_5);
            assert_eq!(x.pm4_0, y.pm4_0);
            assert_eq!(x.pm10_0, y.pm10_0);
            assert_eq!(x.co2, y.co2);
            assert_eq!(x.voc_index, y.voc_index);
            assert_eq!(x.nox_index, y.nox_index);
            assert_eq!(x.luminosity, y.luminosity);
            assert_eq!(x.measurement_seq, y.measurement_seq);
            assert_eq!(x.flags, y.flags);
            assert_eq!(x.mac, y.mac);
            assert_eq!(x.timestamp, y.timestamp);
            assert_eq!(x.rssi, y.rssi);
            assert_eq!(x.tx_power, y.tx_power);
        }
        _ => panic!("variant changed in round trip"),
    }
}

#[test]
fn record_codec_round_trips() {
    for rec in [
        sample_v2(None),
        sample_v2(Some(1_700_000_000_120)),
        sample_e1(None),
        sample_e1(Some(u64::MAX)),
    ] {
        let bytes = encode_record(&rec);
        let back = decode_record(&bytes).unwrap();
        assert_same_record(&rec, &back);
    }
}

#[test]
fn record_codec_lengths() {
    assert_eq!(encode_record(&sample_v2(None)).len(), 26);
    assert_eq!(encode_record(&sample_v2(Some(5))).len(), 34);
    assert_eq!(encode_record(&sample_e1(None)).len(), 39);
    assert_eq!(encode_record(&sample_e1(Some(5))).len(), 47);
}

#[test]
fn record_codec_rejects_bad_buffers() {
    assert!(matches!(decode_record(&[]), Err(RecordError::UnknownTag)));
    assert!(matches!(decode_record(&[0x07; 26]), Err(RecordError::UnknownTag)));
    assert!(matches!(decode_record(&[0x05; 25]), Err(RecordError::BadShape)));
    let mut buf = encode_record(&sample_v2(None));
    buf.push(0);
    assert!(matches!(decode_record(&buf), Err(RecordError::BadShape)));
}

fn handshake() -> (snow::TransportState, snow::TransportState) {
    let psk = [7u8; 32];
    let (mut hs_i, msg1) = initiator_first_message(&psk).unwrap();
    let mut hs_r = responder_new(&psk).unwrap();
    let p1 = deframe(&msg1).unwrap();
    let msg2 = responder_reply(&mut hs_r, &p1).unwrap();
    let p2 = deframe(&msg2).unwrap();
    initiator_read_reply(&mut hs_i, &p2).unwrap();
    let (tp_i, msg3) = initiator_last_message(hs_i).unwrap();
    let p3 = deframe(&msg3).unwrap();
    let tp_r = responder_finish(hs_r, &p3).unwrap();
    (tp_i, tp_r)
}

#[test]
fn noise_session_round_trip() {
    let (mut tp_i, mut tp_r) = handshake();
    let plaintext = b"sensor reading".to_vec();
    let framed = encrypt_frame(&mut tp_i, &plaintext).unwrap();
    assert_eq!(framed.len(), plaintext.len() + 18);
    let ciphertext = deframe(&framed).unwrap();
    assert_ne!(&ciphertext[..plaintext.len()], &plaintext[..]);
    let decrypted = decrypt_payload(&mut tp_r, &ciphertext).unwrap();
    assert_eq!(decrypted, plaintext);
}

#[test]
fn noise_session_detects_tampering() {
    let (mut tp_i, mut tp_r) = handshake();
    let framed = encrypt_frame(&mut tp_i, b"do not touch").unwrap();
    let mut ciphertext = deframe(&framed).unwrap();
    ciphertext[0] ^= 0x01;
    assert!(decrypt_payload(&mut tp_r, &ciphertext).is_err());
}

#[test]
fn noise_handshake_needs_matching_psk() {
    let (mut hs_i, msg1) = initiator_first_message(&[1u8; 32]).unwrap();
    let mut hs_r = responder_new(&[2u8; 32]).unwrap();
    let p1 = deframe(&msg1).unwrap();
    let msg2 = responder_reply(&mut hs_r, &p1).unwrap();
    let p2 = deframe(&msg2).unwrap();
    initiator_read_reply(&mut hs_i, &p2).unwrap();
    let (_tp_i, msg3) = initiator_last_message(hs_i).unwrap();
    let p3 = deframe(&msg3).unwrap();
    // The pre-shared keys differ, so the third message cannot verify.
    assert!(responder_finish(hs_r, &p3).is_err());
}

#[test]
fn time_sync_over_session() {
    let (mut tp_i, mut tp_r) = handshake();
    // The initiator's empty request is an encrypted frame too.
    let request = time_request(&mut tp_i).unwrap();
    assert_eq!(request.len(), 18);
    let req_payload = deframe(&request).unwrap();
    assert_eq!(decrypt_payload(&mut tp_r, &req_payload).unwrap().len(), 0);

    let reply = serve_time(&mut tp_r, 1_700_000_000_000).unwrap();
    assert_eq!(reply.len(), 26);
    let reply_payload = deframe(&reply).unwrap();
    let anchor = read_time_reply(&mut tp_i, &reply_payload, 100, 140).unwrap();
    assert_eq!(anchor.ref_local_ms, 120);
    assert_eq!(anchor.ref_wall_ms, 1_700_000_000_020);
}

#[test]
fn time_anchor_interpretation() {
    // Eight big-endian bytes are the server's Unix milliseconds.
    let mut plain = vec![0u8; 8];
    plain[2] = 0x01;
    plain[3] = 0x8B;
    plain[4] = 0xCF;
    plain[5] = 0xE5;
    plain[6] = 0x68;
    plain[7] = 0x00;
    assert_eq!(u64::from_be_bytes(plain.clone().try_into().unwrap()), 1_700_000_000_000);
    let a = time_anchor_of(&plain, 100, 140).unwrap();
    assert_eq!(a.ref_local_ms, 120);
    assert_eq!(a.ref_wall_ms, 1_700_000_000_020);
    // Any other length is a bad reply.
    assert!(time_anchor_of(&plain[..7], 100, 140).is_err());
    assert!(time_anchor_of(&[0u8; 9], 100, 140).is_err());
}

#[test]
fn streamed_record_arrives_stamped() {
    let (mut tp_i, mut tp_r) = handshake();
    let anchor = TimeAnchor { ref_local_ms: 120, ref_wall_ms: 1_700_000_000_020 };
    let framed = encode_stamped_frame(&mut tp_i, sample_v2(None), &Some(anchor), 220).unwrap();
    let payload = deframe(&framed).unwrap();
    let decoded = process_data_frame(&mut tp_r, &payload).unwrap();
    match decoded {
        Ruuvi::V2(v) => {
            assert_eq!(v.timestamp, 1_700_000_000_120);
            assert_eq!(v.mac, [0xCB, 0xB8, 0x33, 0x44, 0x55, 0x66]);
            assert_eq!(v.temp_mc, -15_000);
            assert_eq!(v.battery_voltage_mv, 1693);
        }
        _ => panic!("wrong variant"),
    }
}

#[test]
fn unstamped_record_keeps_no_timestamp() {
    let rec = stamp_record(sample_v2(None), &None, 220);
    match rec {
        RuuviRaw::V2(v) => assert_eq!(v.timestamp, None),
        _ => panic!("wrong variant"),
    }
}

#[test]
fn oversized_payload_is_refused() {
    let (mut tp_i, _tp_r) = handshake();
    let big = vec![0u8; 65535 - 15];
    assert!(encrypt_frame(&mut tp_i, &big).is_err());
}
