//! Per-device field decoders and the measurement emitter: each decoder maps
//! a verified message body to typed fields with its own bit masks and
//! scaling, and emits them as a fixed, ordered sequence of tagged values.
//!
//! Physical quantities are carried as plain integers in the finest unit the
//! wire format resolves: temperature in tenths of a degree Celsius, rainfall
//! in tenths of a millimetre, wind speeds in kilometres per hour, direction
//! in degrees.

use vstd::prelude::*;

use crate::message::{bitstream_to_payload, payload_to_message, spec_payload, spec_validate,
    SensorError};

verus! {

/// Device-type byte of the temperature/humidity probe (common variant).
pub const WH31_ID_E: u8 = 0x30;

/// Device-type byte of the temperature/humidity probe (alias variant).
pub const WH31_ID_B: u8 = 0x37;

/// Full message length of the probe: 5 data bytes, CRC, checksum.
pub const WH31_MSGLEN: usize = 7;

/// Device-type byte of the radio clock beacon.
pub const WHRCC_ID: u8 = 0x52;

/// Full message length of the clock beacon: 9 data bytes, CRC, checksum.
pub const WHRCC_MSGLEN: usize = 11;

/// Device-type byte of the rain gauge.
pub const WH40_ID: u8 = 0x40;

/// Full message length of the rain gauge: 7 data bytes, CRC, checksum.
pub const WH40_MSGLEN: usize = 9;

/// Device-type byte of the combined wind/light station.
pub const WS68_ID: u8 = 0x68;

/// Full message length of the wind/light station: 14 data bytes, CRC,
/// checksum.
pub const WS68_MSGLEN: usize = 16;

/// A wall-clock date and time as the clock beacon broadcasts it, held as
/// plain calendar fields.
#[derive(Clone, Copy, Debug, PartialEq, Eq)]
pub struct ClockTime {
    pub year: u16,
    pub month: u8,
    pub day: u8,
    pub hour: u8,
    pub minute: u8,
    pub second: u8,
}

/// One decoded reading. Quantities carry their value in the unit named by
/// the variant's documentation.
#[derive(Clone, Copy, Debug, PartialEq, Eq)]
pub enum Measurement {
    /// Whether the battery is healthy.
    BatteryOk(bool),
    /// Raw battery level byte, unscaled.
    BatteryLevelRaw(u8),
    /// Temperature in tenths of a degree Celsius.
    Temperature(i16),
    /// Relative humidity in percent.
    RelativeHumidity(u8),
    /// Wall-clock date and time.
    Clock(ClockTime),
    /// Rainfall accumulation in tenths of a millimetre.
    Rainfall(u16),
    /// Illuminance in lux.
    Lux(u16),
    /// Wind speed in kilometres per hour.
    WindSpeed(u8),
    /// Wind gust in kilometres per hour.
    WindGust(u8),
    /// Wind direction in degrees.
    WindDirection(u16),
}

/// Short lower-case token naming a measurement kind, e.g. for topic names.
pub open spec fn spec_name_token(m: Measurement) -> Seq<char> {
    match m {
        Measurement::BatteryOk(_) => "batteryok"@,
        Measurement::BatteryLevelRaw(_) => "batterylevel"@,
        Measurement::Temperature(_) => "temperature"@,
        Measurement::RelativeHumidity(_) => "humidity"@,
        Measurement::Clock(_) => "time"@,
        Measurement::Rainfall(_) => "rainfall"@,
        Measurement::Lux(_) => "lux"@,
        Measurement::WindSpeed(_) => "windspeed"@,
        Measurement::WindGust(_) => "windgust"@,
        Measurement::WindDirection(_) => "winddirection"@,
    }
}

/// Human-readable name of a measurement kind.
pub open spec fn spec_name(m: Measurement) -> Seq<char> {
    match m {
        Measurement::BatteryOk(_) => "Battery Ok"@,
        Measurement::BatteryLevelRaw(_) => "Battery Level"@,
        Measurement::Temperature(_) => "Temperature"@,
        Measurement::RelativeHumidity(_) => "Relative Humidity"@,
        Measurement::Clock(_) => "Clock"@,
        Measurement::Rainfall(_) => "Rainfall"@,
        Measurement::Lux(_) => "Lux"@,
        Measurement::WindSpeed(_) => "Wind Speed"@,
        Measurement::WindGust(_) => "Wind Gust"@,
        Measurement::WindDirection(_) => "Wind Direction"@,
    }
}

impl Measurement {
    /// Short lower-case token naming this measurement kind.
    pub fn name_token(&self) -> (r: &'static str)
        ensures
            r@ == spec_name_token(*self),
    {
        match self {
            Measurement::BatteryOk(_) => "batteryok",
            Measurement::BatteryLevelRaw(_) => "batterylevel",
            Measurement::Temperature(_) => "temperature",
            Measurement::RelativeHumidity(_) => "humidity",
            Measurement::Clock(_) => "time",
            Measurement::Rainfall(_) => "rainfall",
            Measurement::Lux(_) => "lux",
            Measurement::WindSpeed(_) => "windspeed",
            Measurement::WindGust(_) => "windgust",
            Measurement::WindDirection(_) => "winddirection",
        }
    }

    /// Human-readable name of this measurement kind.
    pub fn name(&self) -> (r: &'static str)
        ensures
            r@ == spec_name(*self),
    {
        match self {
            Measurement::BatteryOk(_) => "Battery Ok",
            Measurement::BatteryLevelRaw(_) => "Battery Level",
            Measurement::Temperature(_) => "Temperature",
            Measurement::RelativeHumidity(_) => "Relative Humidity",
            Measurement::Clock(_) => "Clock",
            Measurement::Rainfall(_) => "Rainfall",
            Measurement::Lux(_) => "Lux",
            Measurement::WindSpeed(_) => "Wind Speed",
            Measurement::WindGust(_) => "Wind Gust",
            Measurement::WindDirection(_) => "Wind Direction",
        }
    }
}

/// One measurement with its shared metadata: the wall-clock capture time (as
/// seconds of the Unix epoch), and the device id and channel where the
/// device type has them.
#[derive(Clone, Copy, Debug, PartialEq, Eq)]
pub struct Measured {
    pub timestamp: i64,
    pub device_id: Option<u16>,
    pub channel: Option<u8>,
    pub measurement: Measurement,
}

/// Relies on chrono::Utc::now (and DateTime::timestamp): the current
/// wall-clock time as seconds of the Unix epoch. The result depends on the
/// machine's clock, so nothing is promised of it.
#[verifier::external_body]
fn now_timestamp() -> i64 {
    chrono::Utc::now().timestamp()
}

/// Fields of one temperature/humidity probe message.
#[derive(Clone, Copy, Debug, PartialEq, Eq)]
pub struct Wh31 {
    pub type_id: u8,
    pub dev_id: u8,
    pub battery_ok: bool,
    /// 1-based channel number (the wire carries it 0-based).
    pub channel: u8,
    /// Temperature in tenths of a degree Celsius: the raw 12-bit reading is
    /// in tenths of a degree above -40 °C.
    pub temp_deci_c: i16,
    /// Relative humidity in percent.
    pub rel_hum: u8,
}

/// The probe's fields as its 5-byte verified message body encodes them.
pub open spec fn wh31_from_body(body: Seq<u8>) -> Wh31 {
    Wh31 {
        type_id: body[0],
        dev_id: body[1],
        battery_ok: ((body[2] & 0x80) >> 7) != 0,
        channel: (((body[2] & 0x70) >> 4) + 1) as u8,
        temp_deci_c: (((((body[2] & 0x0F) as u16) << 8) | (body[3] as u16)) - 400) as i16,
        rel_hum: body[4],
    }
}

/// What decoding a probe payload returns. Either of the probe's two
/// device-type aliases is accepted; the first byte picks which one is
/// demanded of the validator.
pub open spec fn spec_wh31_try_from(bytes: Seq<u8>, strict: bool) -> Result<Wh31, SensorError> {
    let id = if bytes.len() > 0 && bytes[0] == WH31_ID_E {
        WH31_ID_E
    } else {
        WH31_ID_B
    };
    match spec_validate(bytes, id, WH31_MSGLEN as int, strict) {
        Ok(body) => Ok(wh31_from_body(body)),
        Err(e) => Err(e),
    }
}

/// Emission order of the probe: battery flag, temperature, humidity, all
/// under one timestamp, device id and channel.
pub open spec fn wh31_measurements(w: Wh31, timestamp: i64) -> Seq<Measured> {
    seq![
        Measured {
            timestamp,
            device_id: Some(w.dev_id as u16),
            channel: Some(w.channel),
            measurement: Measurement::BatteryOk(w.battery_ok),
        },
        Measured {
            timestamp,
            device_id: Some(w.dev_id as u16),
            channel: Some(w.channel),
            measurement: Measurement::Temperature(w.temp_deci_c),
        },
        Measured {
            timestamp,
            device_id: Some(w.dev_id as u16),
            channel: Some(w.channel),
            measurement: Measurement::RelativeHumidity(w.rel_hum),
        },
    ]
}

impl Wh31 {
    /// Decode a probe payload: validate it under either device-type alias
    /// and unpack the bit fields of its body.
    pub fn try_from(bytes: &[u8], strict: bool) -> (r: Result<Wh31, SensorError>)
        ensures
            r == spec_wh31_try_from(bytes@, strict),
    {
        let id = if bytes.len() > 0 && bytes[0] == WH31_ID_E {
            WH31_ID_E
        } else {
            WH31_ID_B
        };
        let body = match payload_to_message(bytes, id, WH31_MSGLEN, strict) {
            Ok(b) => b,
            Err(e) => {
                return Err(e);
            },
        };
        let b2 = body[2];
        let b3 = body[3];
        let raw: u16 = (((b2 & 0x0F) as u16) << 8) | (b3 as u16);
        proof {
            assert(raw <= 0x0FFF) by (bit_vector)
                requires
                    raw == (((b2 & 0x0F) as u16) << 8) | (b3 as u16),
            ;
            assert(((b2 & 0x70) >> 4) <= 7) by (bit_vector);
        }
        Ok(Wh31 {
            type_id: body[0],
            dev_id: body[1],
            battery_ok: ((b2 & 0x80) >> 7) != 0,
            channel: ((b2 & 0x70) >> 4) + 1,
            temp_deci_c: (raw as i16) - 400,
            rel_hum: body[4],
        })
    }

    /// Emit the probe's readings in their fixed order under one capture
    /// timestamp.
    pub fn to_measurements(&self, timestamp: i64) -> (r: Vec<Measured>)
        ensures
            r@ == wh31_measurements(*self, timestamp),
    {
        let mut v: Vec<Measured> = Vec::new();
        v.push(Measured {
            timestamp,
            device_id: Some(self.dev_id as u16),
            channel: Some(self.channel),
            measurement: Measurement::BatteryOk(self.battery_ok),
        });
        v.push(Measured {
            timestamp,
            device_id: Some(self.dev_id as u16),
            channel: Some(self.channel),
            measurement: Measurement::Temperature(self.temp_deci_c),
        });
        v.push(Measured {
            timestamp,
            device_id: Some(self.dev_id as u16),
            channel: Some(self.channel),
            measurement: Measurement::RelativeHumidity(self.rel_hum),
        });
        proof {
            assert(v@ =~= wh31_measurements(*self, timestamp));
        }
        v
    }
}

/// Fields of one radio clock beacon message.
#[derive(Clone, Copy, Debug, PartialEq, Eq)]
pub struct WhRcc {
    pub type_id: u8,
    pub dev_id: u8,
    /// The broadcast wall-clock date and time.
    pub clock: ClockTime,
}

/// The beacon's fields as its 9-byte verified message body encodes them:
/// each calendar field is a packed pair of decimal nibbles, and the year is
/// offset from 2000.
pub open spec fn whrcc_from_body(body: Seq<u8>) -> WhRcc {
    WhRcc {
        type_id: body[0],
        dev_id: body[1],
        clock: ClockTime {
            year: ((((body[3] & 0xF0) >> 4) * 10 + (body[3] & 0x0F)) + 2000) as u16,
            month: (((body[4] & 0x10) >> 4) * 10 + (body[4] & 0x0F)) as u8,
            day: (((body[5] & 0x30) >> 4) * 10 + (body[5] & 0x0F)) as u8,
            hour: (((body[6] & 0x30) >> 4) * 10 + (body[6] & 0x0F)) as u8,
            minute: (((body[7] & 0x70) >> 4) * 10 + (body[7] & 0x0F)) as u8,
            second: (((body[8] & 0x70) >> 4) * 10 + (body[8] & 0x0F)) as u8,
        },
    }
}

/// What decoding a clock beacon payload returns.
pub open spec fn spec_whrcc_try_from(bytes: Seq<u8>, strict: bool) -> Result<WhRcc, SensorError> {
    match spec_validate(bytes, WHRCC_ID, WHRCC_MSGLEN as int, strict) {
        Ok(body) => Ok(whrcc_from_body(body)),
        Err(e) => Err(e),
    }
}

/// Emission of the beacon: its single clock reading, under one timestamp and
/// device id; the beacon has no channel concept.
pub open spec fn whrcc_measurements(w: WhRcc, timestamp: i64) -> Seq<Measured> {
    seq![
        Measured {
            timestamp,
            device_id: Some(w.dev_id as u16),
            channel: None,
            measurement: Measurement::Clock(w.clock),
        },
    ]
}

impl WhRcc {
    /// Decode a clock beacon payload: validate it and unpack the packed
    /// decimal-nibble date and time.
    pub fn try_from(bytes: &[u8], strict: bool) -> (r: Result<WhRcc, SensorError>)
        ensures
            r == spec_whrcc_try_from(bytes@, strict),
    {
        let body = match payload_to_message(bytes, WHRCC_ID, WHRCC_MSGLEN, strict) {
            Ok(b) => b,
            Err(e) => {
                return Err(e);
            },
        };
        let b3 = body[3];
        let b4 = body[4];
        let b5 = body[5];
        let b6 = body[6];
        let b7 = body[7];
        let b8 = body[8];
        proof {
            assert(((b3 & 0xF0) >> 4) <= 15 && (b3 & 0x0F) <= 15) by (bit_vector);
            assert(((b4 & 0x10) >> 4) <= 1 && (b4 & 0x0F) <= 15) by (bit_vector);
            assert(((b5 & 0x30) >> 4) <= 3 && (b5 & 0x0F) <= 15) by (bit_vector);
            assert(((b6 & 0x30) >> 4) <= 3 && (b6 & 0x0F) <= 15) by (bit_vector);
            assert(((b7 & 0x70) >> 4) <= 7 && (b7 & 0x0F) <= 15) by (bit_vector);
            assert(((b8 & 0x70) >> 4) <= 7 && (b8 & 0x0F) <= 15) by (bit_vector);
        }
        let year: u16 = (((b3 & 0xF0) >> 4) as u16) * 10 + ((b3 & 0x0F) as u16) + 2000;
        let month: u8 = ((b4 & 0x10) >> 4) * 10 + (b4 & 0x0F);
        let day: u8 = ((b5 & 0x30) >> 4) * 10 + (b5 & 0x0F);
        let hour: u8 = ((b6 & 0x30) >> 4) * 10 + (b6 & 0x0F);
        let minute: u8 = ((b7 & 0x70) >> 4) * 10 + (b7 & 0x0F);
        let second: u8 = ((b8 & 0x70) >> 4) * 10 + (b8 & 0x0F);
        Ok(WhRcc {
            type_id: body[0],
            dev_id: body[1],
            clock: ClockTime { year, month, day, hour, minute, second },
        })
    }

    /// Emit the beacon's clock reading under one capture timestamp.
    pub fn to_measurements(&self, timestamp: i64) -> (r: Vec<Measured>)
        ensures
            r@ == whrcc_measurements(*self, timestamp),
    {
        let mut v: Vec<Measured> = Vec::new();
        v.push(Measured {
            timestamp,
            device_id: Some(self.dev_id as u16),
            channel: None,
            measurement: Measurement::Clock(self.clock),
        });
        proof {
            assert(v@ =~= whrcc_measurements(*self, timestamp));
        }
        v
    }
}

/// Fields of one rain gauge message.
#[derive(Clone, Copy, Debug, PartialEq, Eq)]
pub struct Wh40 {
    pub type_id: u8,
    pub dev_id: u16,
    /// 1-based channel number (the wire carries it 0-based).
    pub channel: u8,
    pub battery_ok: bool,
    /// Rainfall accumulation in tenths of a millimetre.
    pub rain_deci_mm: u16,
}

/// The rain gauge's fields as its 7-byte verified message body encodes them.
pub open spec fn wh40_from_body(body: Seq<u8>) -> Wh40 {
    Wh40 {
        type_id: body[0],
        dev_id: ((body[2] as u16) << 8) | (body[3] as u16),
        channel: (((body[4] & 0x70) >> 4) + 1) as u8,
        battery_ok: ((body[4] & 0x80) >> 7) != 0,
        rain_deci_mm: ((body[5] as u16) << 8) | (body[6] as u16),
    }
}

/// What decoding a rain gauge payload returns.
pub open spec fn spec_wh40_try_from(bytes: Seq<u8>, strict: bool) -> Result<Wh40, SensorError> {
    match spec_validate(bytes, WH40_ID, WH40_MSGLEN as int, strict) {
        Ok(body) => Ok(wh40_from_body(body)),
        Err(e) => Err(e),
    }
}

/// Emission order of the rain gauge: battery flag, then rainfall, under one
/// timestamp, device id and channel.
pub open spec fn wh40_measurements(w: Wh40, timestamp: i64) -> Seq<Measured> {
    seq![
        Measured {
            timestamp,
            device_id: Some(w.dev_id),
            channel: Some(w.channel),
            measurement: Measurement::BatteryOk(w.battery_ok),
        },
        Measured {
            timestamp,
            device_id: Some(w.dev_id),
            channel: Some(w.channel),
            measurement: Measurement::Rainfall(w.rain_deci_mm),
        },
    ]
}

impl Wh40 {
    /// Decode a rain gauge payload: validate it and unpack its bit fields.
    pub fn try_from(bytes: &[u8], strict: bool) -> (r: Result<Wh40, SensorError>)
        ensures
            r == spec_wh40_try_from(bytes@, strict),
    {
        let body = match payload_to_message(bytes, WH40_ID, WH40_MSGLEN, strict) {
            Ok(b) => b,
            Err(e) => {
                return Err(e);
            },
        };
        let b4 = body[4];
        proof {
            assert(((b4 & 0x70) >> 4) <= 7) by (bit_vector);
        }
        Ok(Wh40 {
            type_id: body[0],
            dev_id: ((body[2] as u16) << 8) | (body[3] as u16),
            channel: ((b4 & 0x70) >> 4) + 1,
            battery_ok: ((b4 & 0x80) >> 7) != 0,
            rain_deci_mm: ((body[5] as u16) << 8) | (body[6] as u16),
        })
    }

    /// Emit the rain gauge's readings in their fixed order under one capture
    /// timestamp.
    pub fn to_measurements(&self, timestamp: i64) -> (r: Vec<Measured>)
        ensures
            r@ == wh40_measurements(*self, timestamp),
    {
        let mut v: Vec<Measured> = Vec::new();
        v.push(Measured {
            timestamp,
            device_id: Some(self.dev_id),
            channel: Some(self.channel),
            measurement: Measurement::BatteryOk(self.battery_ok),
        });
        v.push(Measured {
            timestamp,
            device_id: Some(self.dev_id),
            channel: Some(self.channel),
            measurement: Measurement::Rainfall(self.rain_deci_mm),
        });
        proof {
            assert(v@ =~= wh40_measurements(*self, timestamp));
        }
        v
    }
}

/// Fields of one combined wind/light station message.
#[derive(Clone, Copy, Debug, PartialEq, Eq)]
pub struct Ws68 {
    pub type_id: u8,
    pub dev_id: u16,
    /// Illuminance in lux.
    pub lux: u16,
    /// Raw battery level byte, unscaled.
    pub battery: u8,
    /// Wind speed in kilometres per hour.
    pub w_speed: u8,
    /// Wind gust in kilometres per hour.
    pub w_gust: u8,
    /// Wind direction in degrees: one flag bit shifted into the high
    /// position over a low byte.
    pub w_dir: u16,
}

/// Whether a raw battery level counts as healthy. The station has no
/// dedicated flag bit; this threshold is a heuristic guess, kept isolated
/// here so it can be corrected without touching the decoder.
pub open spec fn spec_battery_level_ok(level: u8) -> bool {
    level > 0x30
}

/// Whether a raw battery level counts as healthy (heuristic threshold; see
/// `spec_battery_level_ok`).
pub fn battery_level_ok(level: u8) -> (r: bool)
    ensures
        r == spec_battery_level_ok(level),
{
    level > 0x30
}

/// The station's fields as its 14-byte verified message body encodes them.
pub open spec fn ws68_from_body(body: Seq<u8>) -> Ws68 {
    Ws68 {
        type_id: body[0],
        dev_id: ((body[2] as u16) << 8) | (body[3] as u16),
        lux: ((body[4] as u16) << 8) | (body[5] as u16),
        battery: body[6],
        w_speed: body[10],
        w_gust: body[12],
        w_dir: (((body[7] & 0x20) as u16) << 3) | (body[11] as u16),
    }
}

/// What decoding a wind/light station payload returns.
pub open spec fn spec_ws68_try_from(bytes: Seq<u8>, strict: bool) -> Result<Ws68, SensorError> {
    match spec_validate(bytes, WS68_ID, WS68_MSGLEN as int, strict) {
        Ok(body) => Ok(ws68_from_body(body)),
        Err(e) => Err(e),
    }
}

/// Emission order of the station: raw battery level, heuristic battery
/// flag, illuminance, wind speed, gust, direction, under one timestamp and
/// device id; the station has no channel concept.
pub open spec fn ws68_measurements(w: Ws68, timestamp: i64) -> Seq<Measured> {
    seq![
        Measured {
            timestamp,
            device_id: Some(w.dev_id),
            channel: None,
            measurement: Measurement::BatteryLevelRaw(w.battery),
        },
        Measured {
            timestamp,
            device_id: Some(w.dev_id),
            channel: None,
            measurement: Measurement::BatteryOk(spec_battery_level_ok(w.battery)),
        },
        Measured {
            timestamp,
            device_id: Some(w.dev_id),
            channel: None,
            measurement: Measurement::Lux(w.lux),
        },
        Measured {
            timestamp,
            device_id: Some(w.dev_id),
            channel: None,
            measurement: Measurement::WindSpeed(w.w_speed),
        },
        Measured {
            timestamp,
            device_id: Some(w.dev_id),
            channel: None,
            measurement: Measurement::WindGust(w.w_gust),
        },
        Measured {
            timestamp,
            device_id: Some(w.dev_id),
            channel: None,
            measurement: Measurement::WindDirection(w.w_dir),
        },
    ]
}

impl Ws68 {
    /// Decode a wind/light station payload: validate it and unpack its bit
    /// fields.
    pub fn try_from(bytes: &[u8], strict: bool) -> (r: Result<Ws68, SensorError>)
        ensures
            r == spec_ws68_try_from(bytes@, strict),
    {
        let body = match payload_to_message(bytes, WS68_ID, WS68_MSGLEN, strict) {
            Ok(b) => b,
            Err(e) => {
                return Err(e);
            },
        };
        Ok(Ws68 {
            type_id: body[0],
            dev_id: ((body[2] as u16) << 8) | (body[3] as u16),
            lux: ((body[4] as u16) << 8) | (body[5] as u16),
            battery: body[6],
            w_speed: body[10],
            w_gust: body[12],
            w_dir: (((body[7] & 0x20) as u16) << 3) | (body[11] as u16),
        })
    }

    /// Emit the station's readings in their fixed order under one capture
    /// timestamp.
    pub fn to_measurements(&self, timestamp: i64) -> (r: Vec<Measured>)
        ensures
            r@ == ws68_measurements(*self, timestamp),
    {
        let mut v: Vec<Measured> = Vec::new();
        v.push(Measured {
            timestamp,
            device_id: Some(self.dev_id),
            channel: None,
            measurement: Measurement::BatteryLevelRaw(self.battery),
        });
        v.push(Measured {
            timestamp,
            device_id: Some(self.dev_id),
            channel: None,
            measurement: Measurement::BatteryOk(battery_level_ok(self.battery)),
        });
        v.push(Measured {
            timestamp,
            device_id: Some(self.dev_id),
            channel: None,
            measurement: Measurement::Lux(self.lux),
        });
        v.push(Measured {
            timestamp,
            device_id: Some(self.dev_id),
            channel: None,
            measurement: Measurement::WindSpeed(self.w_speed),
        });
        v.push(Measured {
            timestamp,
            device_id: Some(self.dev_id),
            channel: None,
            measurement: Measurement::WindGust(self.w_gust),
        });
        v.push(Measured {
            timestamp,
            device_id: Some(self.dev_id),
            channel: None,
            measurement: Measurement::WindDirection(self.w_dir),
        });
        proof {
            assert(v@ =~= ws68_measurements(*self, timestamp));
        }
        v
    }
}

/// What decoding a located payload returns: the leading device-type byte
/// selects exactly one decoder, and a byte naming no known device type is
/// rejected with that byte's value.
pub open spec fn spec_dispatch(p: Seq<u8>, strict: bool, timestamp: i64) -> Result<
    Seq<Measured>,
    SensorError,
> {
    if p[0] == WH31_ID_E || p[0] == WH31_ID_B {
        match spec_wh31_try_from(p, strict) {
            Ok(w) => Ok(wh31_measurements(w, timestamp)),
            Err(e) => Err(e),
        }
    } else if p[0] == WHRCC_ID {
        match spec_whrcc_try_from(p, strict) {
            Ok(w) => Ok(whrcc_measurements(w, timestamp)),
            Err(e) => Err(e),
        }
    } else if p[0] == WH40_ID {
        match spec_wh40_try_from(p, strict) {
            Ok(w) => Ok(wh40_measurements(w, timestamp)),
            Err(e) => Err(e),
        }
    } else if p[0] == WS68_ID {
        match spec_ws68_try_from(p, strict) {
            Ok(w) => Ok(ws68_measurements(w, timestamp)),
            Err(e) => Err(e),
        }
    } else {
        Err(SensorError::IncorrectMessageType(p[0]))
    }
}

/// What decoding a whole capture returns: nothing for a capture without a
/// payload, the selected device's measurements for a decodable one, and the
/// first failed check otherwise.
pub open spec fn spec_to_measurements(stream: Seq<u8>, strict: bool, timestamp: i64) -> Result<
    Seq<Measured>,
    SensorError,
> {
    match spec_payload(stream) {
        None => Ok(Seq::empty()),
        Some(p) => spec_dispatch(p, strict, timestamp),
    }
}

/// The sequence a decode result holds, with the vector abstracted to its
/// contents.
pub open spec fn measured_result_view(r: Result<Vec<Measured>, SensorError>) -> Result<
    Seq<Measured>,
    SensorError,
> {
    match r {
        Ok(v) => Ok(v@),
        Err(e) => Err(e),
    }
}

/// Decode one capture under a caller-supplied capture timestamp: locate the
/// payload, dispatch on its leading device-type byte, validate, and emit the
/// device's measurements. A pure function of its arguments.
pub fn decode_measurements(bitstream: &[u8], strict: bool, timestamp: i64) -> (r: Result<
    Vec<Measured>,
    SensorError,
>)
    ensures
        measured_result_view(r) == spec_to_measurements(bitstream@, strict, timestamp),
{
    let payload = match bitstream_to_payload(bitstream) {
        Some(p) => p,
        None => {
            let empty: Vec<Measured> = Vec::new();
            proof {
                assert(empty@ =~= Seq::<Measured>::empty());
            }
            return Ok(empty);
        },
    };
    proof {
        crate::message::lemma_payload_nonempty(bitstream@);
    }
    let type_byte = payload[0];
    if type_byte == WH31_ID_E || type_byte == WH31_ID_B {
        match Wh31::try_from(payload, strict) {
            Ok(w) => Ok(w.to_measurements(timestamp)),
            Err(e) => Err(e),
        }
    } else if type_byte == WHRCC_ID {
        match WhRcc::try_from(payload, strict) {
            Ok(w) => Ok(w.to_measurements(timestamp)),
            Err(e) => Err(e),
        }
    } else if type_byte == WH40_ID {
        match Wh40::try_from(payload, strict) {
            Ok(w) => Ok(w.to_measurements(timestamp)),
            Err(e) => Err(e),
        }
    } else if type_byte == WS68_ID {
        match Ws68::try_from(payload, strict) {
            Ok(w) => Ok(w.to_measurements(timestamp)),
            Err(e) => Err(e),
        }
    } else {
        Err(SensorError::IncorrectMessageType(type_byte))
    }
}

/// Decode one capture, stamping its measurements with the wall-clock time of
/// the decode; `strict` selects whether the integrity checks are enforced.
pub fn to_measurements_with_mode(bitstream: &[u8], strict: bool) -> (r: Result<
    Vec<Measured>,
    SensorError,
>)
    ensures
        exists|ts: i64| measured_result_view(r) == spec_to_measurements(bitstream@, strict, ts),
{
    let now = now_timestamp();
    let r = decode_measurements(bitstream, strict, now);
    proof {
        assert(measured_result_view(r) == spec_to_measurements(bitstream@, strict, now));
    }
    r
}

/// Decode one capture with both integrity checks enforced: the production
/// default.
pub fn to_measurements(bitstream: &[u8]) -> (r: Result<Vec<Measured>, SensorError>)
    ensures
        exists|ts: i64| measured_result_view(r) == spec_to_measurements(bitstream@, true, ts),
{
    to_measurements_with_mode(bitstream, true)
}

/// The full message length (data, CRC and checksum bytes) that a device-type
/// byte selects, where it names a known device.
pub open spec fn device_msglen(type_byte: u8) -> Option<int> {
    if type_byte == WH31_ID_E || type_byte == WH31_ID_B {
        Some(WH31_MSGLEN as int)
    } else if type_byte == WHRCC_ID {
        Some(WHRCC_MSGLEN as int)
    } else if type_byte == WH40_ID {
        Some(WH40_MSGLEN as int)
    } else if type_byte == WS68_ID {
        Some(WS68_MSGLEN as int)
    } else {
        None
    }
}

/// For every supported device type: flipping any single bit in the data
/// portion of a payload whose strict decode succeeds makes the strict decode
/// fail with `InvalidCrc` or `InvalidChecksum` — never a silent wrong-value
/// decode. The device-type byte itself is not covered: a flip there is still
/// rejected, but as an unknown or unexpected device type.
pub proof fn lemma_bit_flip_fails_dispatch(p: Seq<u8>, i: int, k: u8, timestamp: i64)
    requires
        spec_dispatch(p, true, timestamp) is Ok,
        1 <= i,
        match device_msglen(p[0]) {
            Some(len) => i < len - 2,
            None => false,
        },
        k < 8,
    ensures
        ({
            let flipped = p.update(i, p[i] ^ (1u8 << k));
            spec_dispatch(flipped, true, timestamp) == Err::<Seq<Measured>, SensorError>(
                SensorError::InvalidCrc,
            ) || spec_dispatch(flipped, true, timestamp) == Err::<Seq<Measured>, SensorError>(
                SensorError::InvalidChecksum,
            )
        }),
{
    let flipped = p.update(i, p[i] ^ (1u8 << k));
    let len = device_msglen(p[0]).unwrap();
    assert(p.len() > 0) by {
        if p.len() == 0 {
            assert(spec_validate(p, p[0], len, true) is Err);
            assert(spec_dispatch(p, true, timestamp) is Err);
        }
    }
    assert(flipped[0] == p[0]);
    crate::message::lemma_bit_flip_detected(p, p[0], len, i, k);
}

/// Decoding is a pure function of the capture: two decodes of one buffer
/// agree outcome for outcome and field for field; only the capture timestamp
/// follows the wall clock.
pub proof fn lemma_decode_deterministic(stream: Seq<u8>, strict: bool, ts1: i64, ts2: i64)
    ensures
        match (
            spec_to_measurements(stream, strict, ts1),
            spec_to_measurements(stream, strict, ts2),
        ) {
            (Ok(r1), Ok(r2)) => r1.len() == r2.len() && (forall|i: int|
                0 <= i < r1.len() ==> r1[i].device_id == r2[i].device_id && r1[i].channel
                    == r2[i].channel && r1[i].measurement == r2[i].measurement),
            (Err(e1), Err(e2)) => e1 == e2,
            _ => false,
        },
{
}

} // verus!
