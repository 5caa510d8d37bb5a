use ruuvi_core::convert::{Ruuvi, RuuviE1, RuuviV2};
use ruuvi_core::schema::{ParseError, RuuviRaw, RuuviRawE1, RuuviRawV2, parse_ruuvi_raw};
use ruuvi_core::wire;

fn v2_payload() -> Vec<u8> {
    vec![
        0x05, 0x12, 0xFC, 0x94, 0x11, 0x5B, 0x01, 0x00, 0x00, 0x00, 0x00, 0x00, 0x00, 0x0B, 0xB8,
        0x24, 0x00, 0x00, 0xCB, 0xB8, 0x33, 0x44, 0x55, 0x66, 0x77, 0x88,
    ]
}

#[test]
fn v2_decode_fields() {
    let data = v2_payload();
    let parsed = parse_ruuvi_raw(0x05, &data).unwrap();
    let v2 = match parsed {
        RuuviRaw::V2(v) => v,
        _ => panic!("wrong variant"),
    };
    // Byte-exact field extraction.
    assert_eq!(v2.temp, 0x12FC);
    assert_eq!(v2.humidity, 0x9411);
    assert_eq!(v2.pressure, 0x5B01);
    assert_eq!(v2.acc_x, 0x0000);
    assert_eq!(v2.power_info, 0x0BB8);
    assert_eq!(v2.movement_counter, 0x24);
    assert_eq!(v2.measurement_seq, 0x0000);
    assert_eq!(v2.mac, [0xCB, 0xB8, 0x33, 0x44, 0x55, 0x66]);
    assert_eq!(v2.timestamp, None);

    // Scaled outputs: 24.30 C, battery 1600 + 93 mV.
    let d = RuuviV2::from_raw(&v2);
    assert_eq!(d.temp_mc, 24_300);
    assert_eq!(d.battery_voltage_mv, 1693);
    assert_eq!(d.abs_pressure, 0x5B01 + 50_000);
    assert_eq!(d.tx_power, (3000i32 % 32) as i8 * 2 - 40);
}

#[test]
fn v2_mac_and_temp_match_payload_bytes() {
    let data = v2_payload();
    let parsed = parse_ruuvi_raw(data[0], &data).unwrap();
    match parsed {
        RuuviRaw::V2(v) => {
            assert_eq!(&v.mac[..], &data[18..24]);
            assert_eq!(v.temp, i16::from_be_bytes([data[1], data[2]]));
        }
        _ => panic!("wrong variant"),
    }
}

fn e1_payload() -> Vec<u8> {
    let mut data = vec![0u8; 40];
    data[0] = 0xE1;
    data[1] = 0x12;
    data[2] = 0xFC;
    data[17] = 0x80;
    data[18] = 0x40;
    data[19] = 0x01;
    data[20] = 0x02;
    data[21] = 0x03;
    data[25] = 0x00;
    data[26] = 0x01;
    data[27] = 0x05;
    data[28] = 0xC0;
    for i in 0..6 {
        data[34 + i] = 0xA0 + i as u8;
    }
    data
}

#[test]
fn e1_voc_nox_assembly() {
    let data = e1_payload();
    let parsed = parse_ruuvi_raw(0xE1, &data).unwrap();
    match parsed {
        RuuviRaw::E1(e1) => {
            assert_eq!(e1.voc_index, 257);
            assert_eq!(e1.nox_index, 129);
            assert_eq!(e1.flags, 0xC0);
            assert_eq!(e1.luminosity, 0x010203);
            assert_eq!(e1.measurement_seq, 0x000105);
            assert_eq!(e1.mac, [0xA0, 0xA1, 0xA2, 0xA3, 0xA4, 0xA5]);
        }
        _ => panic!("wrong variant"),
    }
}

#[test]
fn parse_rejects_short_and_unknown() {
    let short = vec![0x05; 23];
    assert!(matches!(parse_ruuvi_raw(0x05, &short), Err(ParseError::TooShort)));
    let short_e1 = vec![0xE1; 39];
    assert!(matches!(parse_ruuvi_raw(0xE1, &short_e1), Err(ParseError::TooShort)));
    let data = v2_payload();
    assert!(matches!(
        parse_ruuvi_raw(0x06, &data),
        Err(ParseError::UnknownFormat(0x06))
    ));
}

#[test]
fn e1_conversion_saturates() {
    let raw = RuuviRawE1::new(
        -8000, 65535, 0, 20000, 9999, 10000, 10001, 65535, 600, 501, 16_777_215, 5, 0,
        [1, 2, 3, 4, 5, 6], Some(77), -40, 4,
    );
    let d = RuuviE1::from_raw(&raw);
    assert_eq!(d.temp_mc, -40_000);
    assert_eq!(d.rel_humidity_e4, 1_000_000);
    assert_eq!(d.pm1_0_e1, 10_000);
    assert_eq!(d.pm2_5_e1, 9999);
    assert_eq!(d.pm4_0_e1, 10_000);
    assert_eq!(d.pm10_0_e1, 10_000);
    assert_eq!(d.co2, 40_000);
    assert_eq!(d.voc_index, 500);
    assert_eq!(d.nox_index, 500);
    assert_eq!(d.luminosity_e2, 14_428_400);
    assert_eq!(d.timestamp, 77);
    assert_eq!(d.rssi, -40);
    assert_eq!(d.tx_power, 4);
}

#[test]
fn record_accessors_and_timestamp() {
    let data = v2_payload();
    let mut parsed = parse_ruuvi_raw(0x05, &data).unwrap();
    assert_eq!(parsed.mac(), [0xCB, 0xB8, 0x33, 0x44, 0x55, 0x66]);
    assert_eq!(parsed.measurement_seq(), 0);
    parsed.set_timestamp(Some(12345));
    match parsed {
        RuuviRaw::V2(v) => assert_eq!(v.timestamp, Some(12345)),
        _ => panic!("wrong variant"),
    }
}

#[test]
fn monitor_from_bytes_keeps_format() {
    let data = v2_payload();
    let v = wire::RuuviRawV2::from_bytes(&data).unwrap();
    assert_eq!(v.format, 0x05);
    assert_eq!(v.temp, 0x12FC);
    assert_eq!(v.mac, [0xCB, 0xB8, 0x33, 0x44, 0x55, 0x66]);
    let short = vec![0u8; 23];
    assert!(matches!(
        wire::RuuviRawV2::from_bytes(&short),
        Err(wire::ParseError::TooShort)
    ));
}

#[test]
fn monitor_report_helpers() {
    let mut data = vec![0u8; 31];
    data[5] = 0x99;
    data[6] = 0x04;
    assert!(wire::is_ruuvi_report(true, true, &data));
    assert!(!wire::is_ruuvi_report(false, true, &data));
    assert!(!wire::is_ruuvi_report(true, false, &data));
    data[6] = 0x05;
    assert!(!wire::is_ruuvi_report(true, true, &data));

    let be = wire::to_be_mac(&[1, 2, 3, 4, 5, 6]);
    assert_eq!(be, [6, 5, 4, 3, 2, 1]);

    let hex = wire::addr_to_hex(&[0xAA, 0xBB, 0xCC, 0xDD, 0xEE, 0xFF]);
    assert_eq!(hex, "AA:BB:CC:DD:EE:FF");
}

#[test]
fn monitor_printer_window() {
    let mut p = wire::Printer::new();
    assert!(p.note([1, 1, 1, 1, 1, 1]));
    assert!(!p.note([1, 1, 1, 1, 1, 1]));
    assert!(p.note([2, 2, 2, 2, 2, 2]));
    // Fill past the 128-entry window; the first addresses fall out.
    for i in 0..130u16 {
        let b = i.to_be_bytes();
        p.note([9, 9, 9, 9, b[0], b[1]]);
    }
    assert!(p.note([1, 1, 1, 1, 1, 1]));
}

#[test]
fn convert_enum_wraps_both_layouts() {
    let data = v2_payload();
    let parsed = parse_ruuvi_raw(0x05, &data).unwrap();
    match parsed {
        RuuviRaw::V2(v) => {
            let d = Ruuvi::V2(RuuviV2::from_raw(&v));
            match d {
                Ruuvi::V2(dv) => assert_eq!(dv.mac, v.mac),
                _ => panic!("wrong variant"),
            }
        }
        _ => panic!("wrong variant"),
    }
}

#[test]
fn v2_constructor_keeps_fields() {
    let v = RuuviRawV2::new(
        -1, 2, 3, -4, 5, -6, 7, 8, 9, [1, 2, 3, 4, 5, 6], Some(10), -11,
    );
    assert_eq!(v.temp, -1);
    assert_eq!(v.humidity, 2);
    assert_eq!(v.pressure, 3);
    assert_eq!(v.acc_x, -4);
    assert_eq!(v.acc_y, 5);
    assert_eq!(v.acc_z, -6);
    assert_eq!(v.power_info, 7);
    assert_eq!(v.movement_counter, 8);
    assert_eq!(v.measurement_seq, 9);
    assert_eq!(v.mac, [1, 2, 3, 4, 5, 6]);
    assert_eq!(v.timestamp, Some(10));
    assert_eq!(v.rssi, -11);
}
