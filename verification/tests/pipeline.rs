use ruuvi_core::config::{ConfigError, GatewayConfig, WifiConfig, auth_key_bytes, parse_port};
use ruuvi_core::dedup::{table_get, table_insert, table_new};
use ruuvi_core::http::{HttpError, build_request, parse_status_line};
use ruuvi_core::led::{LedEvent, Rgb, coalesce_latest, color_of, event_for_outcome};
use ruuvi_core::queue::HandoffQueue;
use ruuvi_core::scanner::{Handler, ScanOutcome, extract_ruuvi_format};
use ruuvi_core::schema::RuuviRaw;
use ruuvi_core::sender::{Backoff, SenderEvent, SenderPhase, sender_step};
use ruuvi_core::timesync::{anchor, wall_clock_of};

/// A full advertising report whose V2 payload starts at byte 7,
/// carrying the given MAC and measurement sequence.
fn report(mac: [u8; 6], seq: u16) -> Vec<u8> {
    let mut data = vec![0u8; 31];
    data[5] = 0x99;
    data[6] = 0x04;
    data[7] = 0x05;
    let s = seq.to_be_bytes();
    data[23] = s[0];
    data[24] = s[1];
    data[25..31].copy_from_slice(&mac);
    data
}

#[test]
fn extract_finds_both_offsets() {
    let mut a = vec![0u8; 12];
    a[5] = 0x99;
    a[6] = 0x04;
    a[7] = 0x05;
    assert_eq!(extract_ruuvi_format(true, &a), Some((0x05, 7)));
    assert_eq!(extract_ruuvi_format(false, &a), None);

    let mut b = vec![0u8; 12];
    b[2] = 0x99;
    b[3] = 0x04;
    b[4] = 0xE1;
    assert_eq!(extract_ruuvi_format(true, &b), Some((0xE1, 4)));

    assert_eq!(extract_ruuvi_format(true, &vec![0u8; 12]), None);
}

#[test]
fn dedup_stream_forwards_new_pairs_only() {
    let m = [0x11; 6];
    let n = [0x22; 6];
    let mut handler = Handler::new();
    let mut queue = HandoffQueue::new();

    let stream = [(m, 1u16), (m, 1), (m, 2), (n, 1), (m, 2)];
    let mut forwarded: Vec<([u8; 6], u32)> = Vec::new();
    for (mac, seq) in stream {
        match handler.process_report(&mut queue, true, &report(mac, seq), 0) {
            ScanOutcome::Forwarded(rec) => forwarded.push((rec.mac(), rec.measurement_seq())),
            ScanOutcome::Duplicate(_) => {}
            other => panic!("unexpected outcome {other:?}"),
        }
    }
    assert_eq!(forwarded, vec![(m, 1), (m, 2), (n, 1)]);
    assert_eq!(queue.len(), 3);
}

#[test]
fn dedup_handler_primitives() {
    let mut handler = Handler::new();
    let m = [9u8; 6];
    assert!(handler.is_new_seq(m, 5));
    handler.upsert_seq(m, 5);
    assert!(!handler.is_new_seq(m, 5));
    assert!(handler.is_new_seq(m, 6));
}

#[test]
fn dedup_table_full_is_fail_open() {
    let mut t = table_new();
    for k in 0..16u64 {
        assert!(table_insert(&mut t, k, 1).is_ok());
    }
    // A seventeenth source does not fit and is let pass.
    assert!(table_insert(&mut t, 99, 1).is_err());
    assert_eq!(table_get(&t, 99), None);
    // Known sources still update.
    assert!(table_insert(&mut t, 3, 7).is_ok());
    assert_eq!(table_get(&t, 3), Some(7));
}

#[test]
fn scanner_ignores_foreign_and_short_reports() {
    let mut handler = Handler::new();
    let mut queue = HandoffQueue::new();
    let quiet = vec![0u8; 31];
    assert!(matches!(
        handler.process_report(&mut queue, true, &quiet, 0),
        ScanOutcome::NotRuuvi
    ));
    let mut short = report([1; 6], 1);
    short.truncate(20);
    assert!(matches!(
        handler.process_report(&mut queue, true, &short, 0),
        ScanOutcome::ParseFailed(_)
    ));
    assert_eq!(queue.len(), 0);
}

#[test]
fn queue_overflow_keeps_newest_only() {
    let mut handler = Handler::new();
    let mut queue = HandoffQueue::new();
    for seq in 1..=17u16 {
        let outcome = handler.process_report(&mut queue, true, &report([5; 6], seq), seq as u64);
        assert!(matches!(outcome, ScanOutcome::Forwarded(_)));
    }
    // The seventeenth push cleared the queue first.
    assert_eq!(queue.len(), 1);
    let (rec, t) = queue.pop().unwrap();
    assert_eq!(rec.measurement_seq(), 17);
    assert_eq!(t, 17);
    assert!(queue.pop().is_none());
}

#[test]
fn queue_is_first_in_first_out() {
    let mut queue = HandoffQueue::new();
    let rec = match ruuvi_core::schema::parse_ruuvi_raw(0x05, &report([5; 6], 1)[7..]) {
        Ok(r) => r,
        Err(e) => panic!("parse failed: {e:?}"),
    };
    queue.push(rec, 10);
    queue.push(rec, 20);
    assert_eq!(queue.pop().unwrap().1, 10);
    assert_eq!(queue.pop().unwrap().1, 20);
}

#[test]
fn time_sync_anchor_and_stamp() {
    let a = anchor(100, 140, 1_700_000_000_000);
    assert_eq!(a.ref_local_ms, 120);
    assert_eq!(a.ref_wall_ms, 1_700_000_000_020);
    assert_eq!(wall_clock_of(&a, 220), 1_700_000_000_120);
    // A sample captured before the anchor is stamped backwards.
    assert_eq!(wall_clock_of(&a, 100), 1_700_000_000_000);
}

#[test]
fn time_stamp_saturates_at_zero() {
    let a = anchor(1000, 1000, 50);
    assert_eq!(a.ref_local_ms, 1000);
    assert_eq!(a.ref_wall_ms, 50);
    assert_eq!(wall_clock_of(&a, 0), 0);
    assert_eq!(wall_clock_of(&a, 960), 10);
}

#[test]
fn backoff_doubles_and_resets() {
    let mut b = Backoff::new();
    assert_eq!(b.on_failure(), 500);
    assert_eq!(b.on_failure(), 1000);
    assert_eq!(b.on_failure(), 2000);
    b.on_success();
    assert_eq!(b.on_failure(), 500);
}

#[test]
fn backoff_caps_at_thirty_seconds() {
    let mut b = Backoff::new();
    let mut last = 0;
    for _ in 0..10 {
        last = b.on_failure();
    }
    assert_eq!(last, 30_000);
    assert_eq!(b.on_failure(), 30_000);
}

#[test]
fn sender_walks_its_phases() {
    let mut b = Backoff::new();
    let (p, s) = sender_step(SenderPhase::Disconnected, SenderEvent::Tick, &mut b);
    assert_eq!((p, s), (SenderPhase::Connecting, None));
    let (p, _) = sender_step(p, SenderEvent::ConnectOk, &mut b);
    assert_eq!(p, SenderPhase::Handshaking);
    let (p, _) = sender_step(p, SenderEvent::XxComplete, &mut b);
    assert_eq!(p, SenderPhase::TimeSyncing);
    let (p, _) = sender_step(p, SenderEvent::AnchorSet, &mut b);
    assert_eq!(p, SenderPhase::Streaming);
    let (p, _) = sender_step(p, SenderEvent::FrameOk, &mut b);
    assert_eq!(p, SenderPhase::Streaming);
    let (p, slept) = sender_step(p, SenderEvent::Failure, &mut b);
    assert_eq!(p, SenderPhase::Disconnected);
    assert_eq!(slept, Some(500));
}

#[test]
fn sender_failure_backoff_resets_after_sync() {
    let mut b = Backoff::new();
    // Three consecutive connect failures: 500, 1000, 2000 ms.
    let mut p = SenderPhase::Connecting;
    let mut sleeps = Vec::new();
    for _ in 0..3 {
        let (next, slept) = sender_step(p, SenderEvent::Failure, &mut b);
        sleeps.push(slept.unwrap());
        let (next, _) = sender_step(next, SenderEvent::Tick, &mut b);
        p = next;
    }
    assert_eq!(sleeps, vec![500, 1000, 2000]);
    // A completed sync resets the next failure to 500 ms.
    let (p, _) = sender_step(SenderPhase::TimeSyncing, SenderEvent::AnchorSet, &mut b);
    assert_eq!(p, SenderPhase::Streaming);
    let (_, slept) = sender_step(p, SenderEvent::Failure, &mut b);
    assert_eq!(slept, Some(500));
}

#[test]
fn led_colors_and_coalescing() {
    assert_eq!(color_of(&LedEvent::BleOk), Rgb { r: 0, g: 128, b: 0 });
    assert_eq!(color_of(&LedEvent::BleDuplicate), Rgb { r: 255, g: 0, b: 0 });
    assert_eq!(color_of(&LedEvent::TcpOk), Rgb { r: 0, g: 0, b: 255 });

    let drained = vec![LedEvent::BleOk, LedEvent::TcpOk, LedEvent::BleDuplicate];
    assert_eq!(coalesce_latest(Some(LedEvent::BleOk), &drained), Some(LedEvent::BleDuplicate));
    assert_eq!(coalesce_latest(Some(LedEvent::TcpOk), &Vec::new()), Some(LedEvent::TcpOk));
    assert_eq!(coalesce_latest(None, &Vec::new()), None);
}

#[test]
fn led_event_follows_outcome() {
    let mut handler = Handler::new();
    let mut queue = HandoffQueue::new();
    let first = handler.process_report(&mut queue, true, &report([8; 6], 1), 0);
    assert_eq!(event_for_outcome(&first), Some(LedEvent::BleOk));
    let second = handler.process_report(&mut queue, true, &report([8; 6], 1), 0);
    assert_eq!(event_for_outcome(&second), Some(LedEvent::BleDuplicate));
    let none = handler.process_report(&mut queue, true, &vec![0u8; 31], 0);
    assert_eq!(event_for_outcome(&none), None);
}

#[test]
fn config_validates_auth_key() {
    let key = [0x41u8; 32];
    let k = auth_key_bytes(&key).unwrap();
    assert_eq!(k, key);
    assert!(matches!(auth_key_bytes(&[0u8; 31]), Err(ConfigError::BadKeyLength)));
    assert!(matches!(auth_key_bytes(&[0u8; 33]), Err(ConfigError::BadKeyLength)));
}

#[test]
fn config_parses_ports() {
    assert_eq!(parse_port(b"9090").unwrap(), 9090);
    assert_eq!(parse_port(b"0").unwrap(), 0);
    assert_eq!(parse_port(b"070").unwrap(), 70);
    assert_eq!(parse_port(b"65535").unwrap(), 65535);
    assert!(matches!(parse_port(b"65536"), Err(ConfigError::BadPort)));
    assert!(matches!(parse_port(b""), Err(ConfigError::BadPort)));
    assert!(matches!(parse_port(b"12a"), Err(ConfigError::BadPort)));
    assert!(matches!(parse_port(b"-1"), Err(ConfigError::BadPort)));
}

#[test]
fn config_builders_keep_values() {
    let w = WifiConfig::new("net".to_string(), "pass".to_string());
    assert_eq!(w.ssid, "net");
    assert_eq!(w.password, "pass");
    let g = GatewayConfig::new([192, 168, 1, 10], 9090, [7u8; 32]);
    assert_eq!(g.ip, [192, 168, 1, 10]);
    assert_eq!(g.port, 9090);
    assert_eq!(g.auth, [7u8; 32]);
}

#[test]
fn http_request_layout() {
    let json = br#"{"temp":1}"#;
    let auth = b"SECRET-REDACTED";
    let req = build_request(json, auth).unwrap();
    let expected = format!(
        "POST /api/ruuvi HTTP/1.1\r\nHost: 192.168.1.100:8080\r\nConnection: keep-alive\r\nContent-Type: application/json\r\nAuthorization: {}\r\nContent-Length: {}\r\n\r\n{}",
        String::from_utf8_lossy(auth),
        json.len(),
        String::from_utf8_lossy(json),
    );
    assert_eq!(req, expected.into_bytes());
}

#[test]
fn http_request_limits() {
    let long_json = vec![b'x'; 257];
    assert!(matches!(build_request(&long_json, b"k"), Err(HttpError::JsonTooLong)));
    let long_auth = vec![b'a'; 700];
    assert!(matches!(build_request(b"{}", &long_auth), Err(HttpError::Capacity)));
}

#[test]
fn http_request_exact_overflow() {
    // The rough estimate fits, but the finished request does not.
    let json = vec![b'x'; 100];
    let auth = vec![b'a'; 540];
    assert!(matches!(build_request(&json, &auth), Err(HttpError::Overflow)));
    // A slightly shorter value fits exactly.
    let auth = vec![b'a'; 520];
    assert!(build_request(&json, &auth).is_ok());
}

#[test]
fn http_status_line() {
    assert_eq!(parse_status_line(b"HTTP/1.1 200 OK\r\nSrv: x\r\n"), Some(200));
    assert_eq!(parse_status_line(b"HTTP/1.1 404 Not Found\r\n"), Some(404));
    assert_eq!(parse_status_line(b"HTTP/1.1 200"), None);
    assert_eq!(parse_status_line(b"HTTP/1.1 20 OK\r\n"), None);
    assert_eq!(parse_status_line(b"HTTP/1.1 2x0 OK\r\n"), None);
    assert_eq!(parse_status_line(b"nospace\r\n"), None);
    assert_eq!(parse_status_line(b""), None);
}
