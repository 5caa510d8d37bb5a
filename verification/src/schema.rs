//! Advertisement records and the wire parser.
//!
//! Two advertisement layouts are understood.  The V2 layout (format
//! byte `0x05`) carries 24 bytes: temperature, humidity, pressure,
//! three accelerations, packed power info, a movement counter, a
//! 16-bit measurement sequence and the sensor's MAC.  The E1 layout
//! (format byte `0xE1`) carries 40 bytes: the same
//! temperature/humidity/pressure encoding, four particulate-matter
//! channels, CO2, 9-bit VOC and NOx indices whose least-significant
//! bits sit in the flags byte, a 24-bit luminosity, a 24-bit
//! measurement sequence, the flags byte and the MAC.  All multi-byte
//! fields are big-endian.

use crate::bytes::be16;
use crate::bytes::be24;
use crate::bytes::be_i16;
use crate::bytes::read_be_i16;
use crate::bytes::read_be_u16;
use crate::bytes::read_be_u24;
use vstd::prelude::*;

verus! {

/// Raw fields of one V2 advertisement, exactly as carried on air,
/// plus the timestamp and signal strength noted by the listener.
#[derive(Debug, Clone, Copy)]
pub struct RuuviRawV2 {
    /// Temperature, 0.005 degrees Celsius per unit; bytes 1-2.
    pub temp: i16,
    /// Relative humidity, 0.0025 percent per unit; bytes 3-4.
    pub humidity: u16,
    /// Pressure in pascal, offset by -50 000; bytes 5-6.
    pub pressure: u16,
    /// Acceleration along x in milli-g; bytes 7-8.
    pub acc_x: i16,
    /// Acceleration along y in milli-g; bytes 9-10.
    pub acc_y: i16,
    /// Acceleration along z in milli-g; bytes 11-12.
    pub acc_z: i16,
    /// Eleven bits of battery voltage and five bits of TX power; bytes 13-14.
    pub power_info: u16,
    /// Movement counter; byte 15.
    pub movement_counter: u8,
    /// Measurement sequence number; bytes 16-17.
    pub measurement_seq: u16,
    /// Sensor MAC address; bytes 18-23.
    pub mac: [u8; 6],
    /// Wall-clock stamp in Unix milliseconds, set once time is synced.
    pub timestamp: Option<u64>,
    /// Received signal strength in dBm.
    pub rssi: i8,
}

impl RuuviRawV2 {
    /// Builds a V2 record from its fields.
    pub fn new(
        temp: i16,
        humidity: u16,
        pressure: u16,
        acc_x: i16,
        acc_y: i16,
        acc_z: i16,
        power_info: u16,
        movement_counter: u8,
        measurement_seq: u16,
        mac: [u8; 6],
        timestamp: Option<u64>,
        rssi: i8,
    ) -> (r: Self)
        ensures
            r.temp == temp,
            r.humidity == humidity,
            r.pressure == pressure,
            r.acc_x == acc_x,
            r.acc_y == acc_y,
            r.acc_z == acc_z,
            r.power_info == power_info,
            r.movement_counter == movement_counter,
            r.measurement_seq == measurement_seq,
            r.mac == mac,
            r.timestamp == timestamp,
            r.rssi == rssi,
    {
        Self {
            temp,
            humidity,
            pressure,
            acc_x,
            acc_y,
            acc_z,
            power_info,
            movement_counter,
            measurement_seq,
            mac,
            timestamp,
            rssi,
        }
    }
}

/// Raw fields of one E1 advertisement, exactly as carried on air,
/// plus the timestamp and signal data noted by the listener.
#[derive(Debug, Clone, Copy)]
pub struct RuuviRawE1 {
    /// Temperature, 0.005 degrees Celsius per unit; bytes 1-2.
    pub temp: i16,
    /// Relative humidity, 0.0025 percent per unit; bytes 3-4.
    pub humidity: u16,
    /// Pressure in pascal, offset by -50 000; bytes 5-6.
    pub pressure: u16,
    /// PM 1.0 concentration, 0.1 microgram per cubic metre per unit; bytes 7-8.
    pub pm1_0: u16,
    /// PM 2.5 concentration, same scale; bytes 9-10.
    pub pm2_5: u16,
    /// PM 4.0 concentration, same scale; bytes 11-12.
    pub pm4_0: u16,
    /// PM 10.0 concentration, same scale; bytes 13-14.
    pub pm10_0: u16,
    /// CO2 concentration in ppm; bytes 15-16.
    pub co2: u16,
    /// 9-bit VOC index: byte 17 shifted left once, low bit from flags bit 6.
    pub voc_index: u16,
    /// 9-bit NOx index: byte 18 shifted left once, low bit from flags bit 7.
    pub nox_index: u16,
    /// Luminosity, 0.01 lux per unit, 24 bits; bytes 19-21.
    pub luminosity: u32,
    /// Measurement sequence number, 24 bits; bytes 25-27.
    pub measurement_seq: u32,
    /// Flags byte; byte 28.
    pub flags: u8,
    /// Sensor MAC address; bytes 34-39.
    pub mac: [u8; 6],
    /// Wall-clock stamp in Unix milliseconds, set once time is synced.
    pub timestamp: Option<u64>,
    /// Received signal strength in dBm.
    pub rssi: i8,
    /// Transmit power in dBm.
    pub tx_power: i8,
}

impl RuuviRawE1 {
    /// Builds an E1 record from its fields.
    pub fn new(
        temp: i16,
        humidity: u16,
        pressure: u16,
        pm1_0: u16,
        pm2_5: u16,
        pm4_0: u16,
        pm10_0: u16,
        co2: u16,
        voc_index: u16,
        nox_index: u16,
        luminosity: u32,
        measurement_seq: u32,
        flags: u8,
        mac: [u8; 6],
        timestamp: Option<u64>,
        rssi: i8,
        tx_power: i8,
    ) -> (r: Self)
        ensures
            r.temp == temp,
            r.humidity == humidity,
            r.pressure == pressure,
            r.pm1_0 == pm1_0,
            r.pm2_5 == pm2_5,
            r.pm4_0 == pm4_0,
            r.pm10_0 == pm10_0,
            r.co2 == co2,
            r.voc_index == voc_index,
            r.nox_index == nox_index,
            r.luminosity == luminosity,
            r.measurement_seq == measurement_seq,
            r.flags == flags,
            r.mac == mac,
            r.timestamp == timestamp,
            r.rssi == rssi,
            r.tx_power == tx_power,
    {
        Self {
            temp,
            humidity,
            pressure,
            pm1_0,
            pm2_5,
            pm4_0,
            pm10_0,
            co2,
            voc_index,
            nox_index,
            luminosity,
            measurement_seq,
            flags,
            mac,
            timestamp,
            rssi,
            tx_power,
        }
    }
}

/// One advertisement record of either layout.
#[derive(Debug, Clone, Copy)]
pub enum RuuviRaw {
    /// A V2 record (format byte `0x05`).
    V2(RuuviRawV2),
    /// An E1 record (format byte `0xE1`).
    E1(RuuviRawE1),
}

impl RuuviRaw {
    /// The record's measurement sequence number, widened to 32 bits.
    pub fn measurement_seq(&self) -> (r: u32)
        ensures
            r == self.seq_spec(),
    {
        match self {
            Self::E1(e1) => e1.measurement_seq,
            Self::V2(v2) => v2.measurement_seq as u32,
        }
    }

    /// Spec view of `measurement_seq`.
    pub open spec fn seq_spec(&self) -> u32 {
        match self {
            Self::E1(e1) => e1.measurement_seq,
            Self::V2(v2) => v2.measurement_seq as u32,
        }
    }

    /// The record's MAC address.
    pub fn mac(&self) -> (r: [u8; 6])
        ensures
            r == self.mac_spec(),
    {
        match self {
            Self::E1(e1) => e1.mac,
            Self::V2(v2) => v2.mac,
        }
    }

    /// Spec view of `mac`.
    pub open spec fn mac_spec(&self) -> [u8; 6] {
        match self {
            Self::E1(e1) => e1.mac,
            Self::V2(v2) => v2.mac,
        }
    }

    /// Spec view of the record's timestamp.
    pub open spec fn timestamp_spec(&self) -> Option<u64> {
        match self {
            Self::E1(e1) => e1.timestamp,
            Self::V2(v2) => v2.timestamp,
        }
    }

    /// The record with its timestamp replaced.
    pub open spec fn with_timestamp(&self, timestamp: Option<u64>) -> RuuviRaw {
        match self {
            Self::E1(e1) => RuuviRaw::E1(RuuviRawE1 { timestamp, ..*e1 }),
            Self::V2(v2) => RuuviRaw::V2(RuuviRawV2 { timestamp, ..*v2 }),
        }
    }

    /// Replaces the record's timestamp, leaving every other field as
    /// it was.
    pub fn set_timestamp(&mut self, timestamp: Option<u64>)
        ensures
            *final(self) == old(self).with_timestamp(timestamp),
    {
        match self {
            Self::E1(e1) => e1.timestamp = timestamp,
            Self::V2(v2) => v2.timestamp = timestamp,
        }
    }
}

/// Why an advertisement payload was rejected.
#[derive(Debug, Clone, Copy, PartialEq, Eq, Structural)]
pub enum ParseError {
    /// The payload has fewer bytes than its layout requires.
    TooShort,
    /// The format tag names no layout this parser knows.
    UnknownFormat(u8),
}

/// The 9-bit VOC index carried by byte 17 and bit 6 of the flags byte.
pub open spec fn voc_of(b17: u8, flags: u8) -> int {
    b17 * 2 + (flags / 64) % 2
}

/// The 9-bit NOx index carried by byte 18 and bit 7 of the flags byte.
pub open spec fn nox_of(b18: u8, flags: u8) -> int {
    b18 * 2 + (flags / 128) % 2
}

/// Whether a V2 payload parses, and to which record.  The payload
/// starts at the format byte.
pub open spec fn v2_fields_ok(data: Seq<u8>, r: RuuviRawV2) -> bool {
    &&& r.temp == be_i16(data[1], data[2])
    &&& r.humidity == be16(data[3], data[4])
    &&& r.pressure == be16(data[5], data[6])
    &&& r.acc_x == be_i16(data[7], data[8])
    &&& r.acc_y == be_i16(data[9], data[10])
    &&& r.acc_z == be_i16(data[11], data[12])
    &&& r.power_info == be16(data[13], data[14])
    &&& r.movement_counter == data[15]
    &&& r.measurement_seq == be16(data[16], data[17])
    &&& r.mac@ == data.subrange(18, 24)
    &&& r.timestamp is None
    &&& r.rssi == 0
}

/// Whether an E1 payload parses, and to which record.  The payload
/// starts at the format byte.
pub open spec fn e1_fields_ok(data: Seq<u8>, r: RuuviRawE1) -> bool {
    &&& r.temp == be_i16(data[1], data[2])
    &&& r.humidity == be16(data[3], data[4])
    &&& r.pressure == be16(data[5], data[6])
    &&& r.pm1_0 == be16(data[7], data[8])
    &&& r.pm2_5 == be16(data[9], data[10])
    &&& r.pm4_0 == be16(data[11], data[12])
    &&& r.pm10_0 == be16(data[13], data[14])
    &&& r.co2 == be16(data[15], data[16])
    &&& r.voc_index == voc_of(data[17], data[28])
    &&& r.nox_index == nox_of(data[18], data[28])
    &&& r.luminosity == be24(data[19], data[20], data[21])
    &&& r.measurement_seq == be24(data[25], data[26], data[27])
    &&& r.flags == data[28]
    &&& r.mac@ == data.subrange(34, 40)
    &&& r.timestamp is None
    &&& r.rssi == 0
    &&& r.tx_power == 0
}

/// Parses an advertisement payload, already cut to start at the
/// format byte, into a record of the layout named by `data_format`.
///
/// A V2 payload must offer at least 24 bytes and an E1 payload at
/// least 40; shorter input is rejected, as is any unknown format tag.
pub fn parse_ruuvi_raw(data_format: u8, data: &[u8]) -> (r: Result<RuuviRaw, ParseError>)
    ensures
        data_format == 0x05 && data@.len() >= 24 ==> (r matches Ok(RuuviRaw::V2(v2))
            && v2_fields_ok(data@, v2)),
        data_format == 0xE1 && data@.len() >= 40 ==> (r matches Ok(RuuviRaw::E1(e1))
            && e1_fields_ok(data@, e1)),
        data_format == 0x05 && data@.len() < 24 ==> r == Err::<RuuviRaw, ParseError>(
            ParseError::TooShort,
        ),
        data_format == 0xE1 && data@.len() < 40 ==> r == Err::<RuuviRaw, ParseError>(
            ParseError::TooShort,
        ),
        data_format != 0x05 && data_format != 0xE1 ==> r == Err::<RuuviRaw, ParseError>(
            ParseError::UnknownFormat(data_format),
        ),
{
    match data_format {
        0xE1 => {
            if data.len() < 40 {
                return Err(ParseError::TooShort);
            }
            let flags = data[28];
            let voc_index: u16 = (data[17] as u16) * 2 + ((flags / 64) % 2) as u16;
            let nox_index: u16 = (data[18] as u16) * 2 + ((flags / 128) % 2) as u16;
            let mac = [data[34], data[35], data[36], data[37], data[38], data[39]];
            proof {
                assert(mac@ =~= data@.subrange(34, 40));
            }
            Ok(
                RuuviRaw::E1(
                    RuuviRawE1::new(
                        read_be_i16(data[1], data[2]),
                        read_be_u16(data[3], data[4]),
                        read_be_u16(data[5], data[6]),
                        read_be_u16(data[7], data[8]),
                        read_be_u16(data[9], data[10]),
                        read_be_u16(data[11], data[12]),
                        read_be_u16(data[13], data[14]),
                        read_be_u16(data[15], data[16]),
                        voc_index,
                        nox_index,
                        read_be_u24(data[19], data[20], data[21]),
                        read_be_u24(data[25], data[26], data[27]),
                        flags,
                        mac,
                        None,
                        0,
                        0,
                    ),
                ),
            )
        },
        0x05 => {
            if data.len() < 24 {
                return Err(ParseError::TooShort);
            }
            let mac = [data[18], data[19], data[20], data[21], data[22], data[23]];
            proof {
                assert(mac@ =~= data@.subrange(18, 24));
            }
            Ok(
                RuuviRaw::V2(
                    RuuviRawV2::new(
                        read_be_i16(data[1], data[2]),
                        read_be_u16(data[3], data[4]),
                        read_be_u16(data[5], data[6]),
                        read_be_i16(data[7], data[8]),
                        read_be_i16(data[9], data[10]),
                        read_be_i16(data[11], data[12]),
                        read_be_u16(data[13], data[14]),
                        data[15],
                        read_be_u16(data[16], data[17]),
                        mac,
                        None,
                        0,
                    ),
                ),
            )
        },
        _ => Err(ParseError::UnknownFormat(data_format)),
    }
}

} // verus!
