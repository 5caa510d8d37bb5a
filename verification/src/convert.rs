//! Unit conversion from raw records to physical quantities.
//!
//! Every scale on the air interface is a decimal one, so each
//! physical quantity is held here exactly, as an integer count of a
//! fixed decimal unit: temperature in thousandths of a degree
//! Celsius, relative humidity in ten-thousandths of a percent,
//! particulate matter in tenths of a microgram per cubic metre,
//! luminosity in hundredths of a lux.  Embedding programs divide by
//! the matching power of ten when a floating-point value is wanted;
//! the derived vapour quantities, which need transcendental
//! functions, are computed there as well, from the exact fields kept
//! here.

use crate::schema::RuuviRawE1;
use crate::schema::RuuviRawV2;
use vstd::prelude::*;

verus! {

/// Decoded physical quantities of one V2 record.
#[derive(Debug, Clone)]
pub struct RuuviV2 {
    /// Sensor MAC address.
    pub mac: [u8; 6],
    /// Temperature in thousandths of a degree Celsius.
    pub temp_mc: i32,
    /// Relative humidity in ten-thousandths of a percent, at most 100 percent.
    pub rel_humidity_e4: u32,
    /// Pressure in pascal.
    pub abs_pressure: u32,
    /// Acceleration along x in milli-g.
    pub acc_x: i16,
    /// Acceleration along y in milli-g.
    pub acc_y: i16,
    /// Acceleration along z in milli-g.
    pub acc_z: i16,
    /// Battery voltage in millivolt.
    pub battery_voltage_mv: u16,
    /// Transmit power in dBm.
    pub tx_power: i8,
    /// Movement counter.
    pub movement_counter: u8,
    /// Measurement sequence number.
    pub measurement_seq: u16,
    /// Wall-clock stamp in Unix milliseconds; zero when never synced.
    pub timestamp: u64,
    /// Received signal strength in dBm.
    pub rssi: i8,
}

/// Decoded physical quantities of one E1 record.
#[derive(Debug, Clone)]
pub struct RuuviE1 {
    /// Sensor MAC address.
    pub mac: [u8; 6],
    /// Temperature in thousandths of a degree Celsius.
    pub temp_mc: i32,
    /// Relative humidity in ten-thousandths of a percent, at most 100 percent.
    pub rel_humidity_e4: u32,
    /// Pressure in pascal.
    pub abs_pressure: u32,
    /// PM 1.0 in tenths of a microgram per cubic metre, at most 1000.
    pub pm1_0_e1: u16,
    /// PM 2.5, same scale and bound.
    pub pm2_5_e1: u16,
    /// PM 4.0, same scale and bound.
    pub pm4_0_e1: u16,
    /// PM 10.0, same scale and bound.
    pub pm10_0_e1: u16,
    /// CO2 concentration in ppm, at most 40 000.
    pub co2: u16,
    /// VOC index, at most 500.
    pub voc_index: u16,
    /// NOx index, at most 500.
    pub nox_index: u16,
    /// Luminosity in hundredths of a lux, at most 144 284 lux.
    pub luminosity_e2: u32,
    /// Measurement sequence number.
    pub measurement_seq: u32,
    /// Flags byte.
    pub flags: u8,
    /// Transmit power in dBm.
    pub tx_power: i8,
    /// Wall-clock stamp in Unix milliseconds; zero when never synced.
    pub timestamp: u64,
    /// Received signal strength in dBm.
    pub rssi: i8,
}

/// A decoded record of either layout.
#[derive(Debug, Clone)]
pub enum Ruuvi {
    /// A decoded V2 record.
    V2(RuuviV2),
    /// A decoded E1 record.
    E1(RuuviE1),
}

/// Relative humidity in ten-thousandths of a percent: 25 per raw
/// unit, saturated at 100 percent.
pub open spec fn humidity_e4_of(raw: u16) -> int {
    if raw * 25 > 1_000_000 {
        1_000_000
    } else {
        raw * 25
    }
}

/// Battery voltage in millivolt: the high eleven bits of the power
/// info, offset by 1600.
pub open spec fn battery_mv_of(power_info: u16) -> int {
    1600 + power_info / 32
}

/// Transmit power in dBm: the low five bits of the power info, two
/// dBm per unit, offset by -40.
pub open spec fn tx_power_of(power_info: u16) -> int {
    (power_info % 32) * 2 - 40
}

/// The decoded image of a raw V2 record.
pub open spec fn convert_v2_spec(raw: RuuviRawV2) -> RuuviV2 {
    RuuviV2 {
        mac: raw.mac,
        temp_mc: (raw.temp * 5) as i32,
        rel_humidity_e4: humidity_e4_of(raw.humidity) as u32,
        abs_pressure: (raw.pressure + 50_000) as u32,
        acc_x: raw.acc_x,
        acc_y: raw.acc_y,
        acc_z: raw.acc_z,
        battery_voltage_mv: battery_mv_of(raw.power_info) as u16,
        tx_power: tx_power_of(raw.power_info) as i8,
        movement_counter: raw.movement_counter,
        measurement_seq: raw.measurement_seq,
        timestamp: raw.timestamp.unwrap_or(0),
        rssi: raw.rssi,
    }
}

impl RuuviV2 {
    /// Decodes the raw V2 fields: temperature at five
    /// milli-degrees per unit, humidity saturated at 100 percent,
    /// pressure offset by 50 000 Pa, and the power info split into
    /// battery voltage and transmit power.
    pub fn from_raw(raw: &RuuviRawV2) -> (r: Self)
        ensures
            r == convert_v2_spec(*raw),
            r.mac == raw.mac,
            r.temp_mc == raw.temp * 5,
            r.rel_humidity_e4 == humidity_e4_of(raw.humidity),
            r.abs_pressure == raw.pressure + 50_000,
            r.acc_x == raw.acc_x,
            r.acc_y == raw.acc_y,
            r.acc_z == raw.acc_z,
            r.battery_voltage_mv == battery_mv_of(raw.power_info),
            r.tx_power == tx_power_of(raw.power_info),
            r.movement_counter == raw.movement_counter,
            r.measurement_seq == raw.measurement_seq,
            r.timestamp == raw.timestamp.unwrap_or(0),
            r.rssi == raw.rssi,
    {
        let humidity_e4: u32 = {
            let h: u32 = (raw.humidity as u32) * 25;
            if h > 1_000_000 {
                1_000_000
            } else {
                h
            }
        };
        let timestamp: u64 = match raw.timestamp {
            Some(t) => t,
            None => 0,
        };
        Self {
            mac: raw.mac,
            temp_mc: (raw.temp as i32) * 5,
            rel_humidity_e4: humidity_e4,
            abs_pressure: (raw.pressure as u32) + 50_000,
            acc_x: raw.acc_x,
            acc_y: raw.acc_y,
            acc_z: raw.acc_z,
            battery_voltage_mv: 1600 + raw.power_info / 32,
            tx_power: ((raw.power_info % 32) as i8) * 2 - 40,
            movement_counter: raw.movement_counter,
            measurement_seq: raw.measurement_seq,
            timestamp,
            rssi: raw.rssi,
        }
    }
}

/// A particulate-matter channel in tenths of a microgram per cubic
/// metre, saturated at 1000 micrograms per cubic metre.
pub open spec fn pm_e1_of(raw: u16) -> int {
    if raw > 10_000 {
        10_000
    } else {
        raw as int
    }
}

/// Saturates a raw field at a bound.
fn clamp_u16(raw: u16, bound: u16) -> (r: u16)
    ensures
        r == if raw > bound {
            bound
        } else {
            raw
        },
{
    if raw > bound {
        bound
    } else {
        raw
    }
}

/// The decoded image of a raw E1 record.
pub open spec fn convert_e1_spec(raw: RuuviRawE1) -> RuuviE1 {
    RuuviE1 {
        mac: raw.mac,
        temp_mc: (raw.temp * 5) as i32,
        rel_humidity_e4: humidity_e4_of(raw.humidity) as u32,
        abs_pressure: (raw.pressure + 50_000) as u32,
        pm1_0_e1: pm_e1_of(raw.pm1_0) as u16,
        pm2_5_e1: pm_e1_of(raw.pm2_5) as u16,
        pm4_0_e1: pm_e1_of(raw.pm4_0) as u16,
        pm10_0_e1: pm_e1_of(raw.pm10_0) as u16,
        co2: if raw.co2 > 40_000 {
            40_000u16
        } else {
            raw.co2
        },
        voc_index: if raw.voc_index > 500 {
            500u16
        } else {
            raw.voc_index
        },
        nox_index: if raw.nox_index > 500 {
            500u16
        } else {
            raw.nox_index
        },
        luminosity_e2: if raw.luminosity > 14_428_400 {
            14_428_400u32
        } else {
            raw.luminosity
        },
        measurement_seq: raw.measurement_seq,
        flags: raw.flags,
        tx_power: raw.tx_power,
        timestamp: raw.timestamp.unwrap_or(0),
        rssi: raw.rssi,
    }
}

/// The decoded image of a raw record of either layout.
pub open spec fn convert_spec(raw: crate::schema::RuuviRaw) -> Ruuvi {
    match raw {
        crate::schema::RuuviRaw::V2(v) => Ruuvi::V2(convert_v2_spec(v)),
        crate::schema::RuuviRaw::E1(v) => Ruuvi::E1(convert_e1_spec(v)),
    }
}

impl RuuviE1 {
    /// Decodes the raw E1 fields: the V2 scalings for temperature,
    /// humidity and pressure, the particulate channels saturated at
    /// 1000 micrograms per cubic metre, CO2 at 40 000 ppm, the gas
    /// indices at 500, and luminosity at 144 284 lux.
    pub fn from_raw(raw: &RuuviRawE1) -> (r: Self)
        ensures
            r == convert_e1_spec(*raw),
            r.mac == raw.mac,
            r.temp_mc == raw.temp * 5,
            r.rel_humidity_e4 == humidity_e4_of(raw.humidity),
            r.abs_pressure == raw.pressure + 50_000,
            r.pm1_0_e1 == pm_e1_of(raw.pm1_0),
            r.pm2_5_e1 == pm_e1_of(raw.pm2_5),
            r.pm4_0_e1 == pm_e1_of(raw.pm4_0),
            r.pm10_0_e1 == pm_e1_of(raw.pm10_0),
            r.co2 == if raw.co2 > 40_000 {
                40_000int
            } else {
                raw.co2 as int
            },
            r.voc_index == if raw.voc_index > 500 {
                500int
            } else {
                raw.voc_index as int
            },
            r.nox_index == if raw.nox_index > 500 {
                500int
            } else {
                raw.nox_index as int
            },
            r.luminosity_e2 == if raw.luminosity > 14_428_400 {
                14_428_400int
            } else {
                raw.luminosity as int
            },
            r.measurement_seq == raw.measurement_seq,
            r.flags == raw.flags,
            r.tx_power == raw.tx_power,
            r.timestamp == raw.timestamp.unwrap_or(0),
            r.rssi == raw.rssi,
    {
        let humidity_e4: u32 = {
            let h: u32 = (raw.humidity as u32) * 25;
            if h > 1_000_000 {
                1_000_000
            } else {
                h
            }
        };
        let luminosity_e2: u32 = if raw.luminosity > 14_428_400 {
            14_428_400
        } else {
            raw.luminosity
        };
        let timestamp: u64 = match raw.timestamp {
            Some(t) => t,
            None => 0,
        };
        Self {
            mac: raw.mac,
            temp_mc: (raw.temp as i32) * 5,
            rel_humidity_e4: humidity_e4,
            abs_pressure: (raw.pressure as u32) + 50_000,
            pm1_0_e1: clamp_u16(raw.pm1_0, 10_000),
            pm2_5_e1: clamp_u16(raw.pm2_5, 10_000),
            pm4_0_e1: clamp_u16(raw.pm4_0, 10_000),
            pm10_0_e1: clamp_u16(raw.pm10_0, 10_000),
            co2: clamp_u16(raw.co2, 40_000),
            voc_index: clamp_u16(raw.voc_index, 500),
            nox_index: clamp_u16(raw.nox_index, 500),
            luminosity_e2,
            measurement_seq: raw.measurement_seq,
            flags: raw.flags,
            tx_power: raw.tx_power,
            timestamp,
            rssi: raw.rssi,
        }
    }
}

} // verus!
