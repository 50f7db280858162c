//! Decoding of manufacturer specific data, and the projection of what was
//! decoded onto a reading.

use crate::format3::format3_measurements;
use crate::format5::format5_measurements;
use crate::reading::SensorData;
use ruuvi_sensor_protocol::{
    Acceleration, BatteryPotential, Humidity, MeasurementSequenceNumber, MovementCounter,
    ParseError, Pressure, SensorValues, Temperature, TransmitterPower,
};
use vstd::prelude::*;
use vstd::slice::slice_subrange;

verus! {

/// The manufacturer identifier under which RuuviTags broadcast.
pub const MANUFACTURER_DATA_ID: u16 = 0x0499;

/// Why a payload could not be decoded.
#[derive(Debug, Clone, Copy, PartialEq, Eq)]
pub enum DecodeError {
    /// The manufacturer identifier is not the one of RuuviTags.
    UnknownManufacturerId(u16),
    /// The payload announces a data format that is not supported.
    UnsupportedFormatVersion(u8),
    /// The payload of the given format has the first length where the
    /// second is required.
    InvalidValueLength(u8, usize, usize),
    /// The payload is empty, so that it announces no data format.
    EmptyValue,
}

/// What a payload holds, each measurement present or absent on its own.
#[derive(Debug, Clone, Copy, PartialEq, Eq)]
pub struct Measurements {
    /// Humidity in parts per million.
    pub humidity: Option<u32>,
    /// Temperature in milli-kelvins.
    pub temperature: Option<u32>,
    /// Pressure in pascals.
    pub pressure: Option<u32>,
    /// Acceleration along three axes, in milli-G.
    pub acceleration: Option<(i16, i16, i16)>,
    /// Battery potential in milli-volts.
    pub battery_potential: Option<u16>,
    /// Transmitter power in dBm.
    pub tx_power: Option<i8>,
    /// Movement counter.
    pub movement_counter: Option<u32>,
    /// Measurement sequence number.
    pub measurement_sequence_number: Option<u32>,
}

/// The length that a payload of the given data format must have, the format
/// byte included; `None` for a format that is not supported.
pub open spec fn format_length(version: u8) -> Option<nat> {
    if version == 3 {
        Some(14)
    } else if version == 5 {
        Some(24)
    } else if version == 6 {
        Some(20)
    } else if version == 0xE1 {
        Some(40)
    } else {
        None
    }
}

/// The failure with which decoding of `payload` under `id` ends, `None`
/// where it succeeds.
pub open spec fn decode_failure(id: u16, payload: Seq<u8>) -> Option<DecodeError> {
    if id != MANUFACTURER_DATA_ID {
        Some(DecodeError::UnknownManufacturerId(id))
    } else if payload.len() == 0 {
        Some(DecodeError::EmptyValue)
    } else {
        match format_length(payload[0]) {
            None => Some(DecodeError::UnsupportedFormatVersion(payload[0])),
            Some(n) => if payload.len() == n {
                None
            } else {
                Some(DecodeError::InvalidValueLength(payload[0], payload.len() as usize, n as usize))
            },
        }
    }
}

/// The measurements that a payload of format 6 or 0xE1, and of that
/// format's length, holds.
pub uninterp spec fn later_format_measurements(id: u16, payload: Seq<u8>) -> Measurements;

/// What decoding of `payload` under `id` gives.
pub open spec fn decode_result(id: u16, payload: Seq<u8>) -> Result<Measurements, DecodeError> {
    match decode_failure(id, payload) {
        Some(e) => Err(e),
        None => if payload[0] == 3 {
            Ok(format3_measurements(payload))
        } else if payload[0] == 5 {
            Ok(format5_measurements(payload))
        } else {
            Ok(
                Measurements {
                    acceleration: None,
                    battery_potential: None,
                    tx_power: None,
                    movement_counter: None,
                    ..later_format_measurements(id, payload)
                },
            )
        },
    }
}

/// Calls `SensorValues::from_manufacturer_specific_data` of
/// ruuvi_sensor_protocol and copies out what the eight getters of its result
/// return, or the variant and fields of its error. Trusted: that the call
/// fails exactly as `decode_failure` says (another identifier than 0x0499,
/// an empty payload, a format byte other than 3, 5, 6 and 0xE1, a length
/// other than the format's), that a payload of format 3 gives what
/// `format3_measurements` says and one of format 5 what
/// `format5_measurements` says, and that for formats 6 and 0xE1 the
/// measurements depend on the identifier and the payload alone and hold no
/// acceleration, battery potential, transmitter power or movement counter.
/// The error type is open to new variants; in this version `EmptyValue` is
/// the only one that reaches the last arm.
#[verifier::external_body]
fn decode_payload(id: u16, payload: &[u8]) -> (r: Result<Measurements, DecodeError>)
    ensures
        r.is_err() == decode_failure(id, payload@).is_some(),
        r.is_err() ==> r.unwrap_err() == decode_failure(id, payload@).unwrap(),
        r.is_ok() && payload@[0] == 3 ==> r.unwrap() == format3_measurements(payload@),
        r.is_ok() && payload@[0] == 5 ==> r.unwrap() == format5_measurements(payload@),
        r.is_ok() && payload@[0] != 3 && payload@[0] != 5 ==> r.unwrap()
            == later_format_measurements(id, payload@),
        r.is_ok() && payload@[0] != 3 && payload@[0] != 5 ==> r.unwrap().acceleration is None
            && r.unwrap().battery_potential is None && r.unwrap().tx_power is None
            && r.unwrap().movement_counter is None,
{
    match SensorValues::from_manufacturer_specific_data(id, payload) {
        Ok(v) => Ok(Measurements {
            humidity: v.humidity_as_ppm(),
            temperature: v.temperature_as_millikelvins(),
            pressure: v.pressure_as_pascals(),
            acceleration: v.acceleration_vector_as_milli_g().map(|a| (a.0, a.1, a.2)),
            battery_potential: v.battery_potential_as_millivolts(),
            tx_power: v.tx_power_as_dbm(),
            movement_counter: v.movement_counter(),
            measurement_sequence_number: v.measurement_sequence_number() }),
        Err(ParseError::UnknownManufacturerId(m)) => Err(DecodeError::UnknownManufacturerId(m)),
        Err(ParseError::UnsupportedFormatVersion(f)) => Err(DecodeError::UnsupportedFormatVersion(f)),
        Err(ParseError::InvalidValueLength(f, n, e)) => Err(DecodeError::InvalidValueLength(f, n, e)),
        Err(_) => Err(DecodeError::EmptyValue),
    }
}

/// The reading that measurements give for the device at `address`: the
/// five mandatory ones and whatever optional ones are present, or `None`
/// where a mandatory one is absent.
pub open spec fn projection(address: [u8; 6], m: Measurements) -> Option<SensorData> {
    if m.humidity is Some && m.temperature is Some && m.pressure is Some && m.acceleration is Some
        && m.battery_potential is Some {
        Some(
            SensorData {
                mac_address: address,
                humidity: m.humidity.unwrap(),
                temperature: m.temperature.unwrap(),
                pressure: m.pressure.unwrap(),
                acceleration: m.acceleration.unwrap(),
                battery_potential: m.battery_potential.unwrap(),
                tx_power: m.tx_power,
                movement_counter: m.movement_counter,
                measurement_sequence_number: m.measurement_sequence_number,
            },
        )
    } else {
        None
    }
}

/// A reading is made exactly where all five mandatory measurements are
/// present; the optional ones decide nothing.
pub proof fn lemma_projection_needs_mandatory_measurements(address: [u8; 6], m: Measurements)
    ensures
        projection(address, m) is Some <==> m.humidity is Some && m.temperature is Some
            && m.pressure is Some && m.acceleration is Some && m.battery_potential is Some,
        projection(address, m) is Some ==> projection(address, m).unwrap().mac_address == address,
{
}

/// A payload of format 6 or 0xE1 is decoded and gives no reading: these
/// formats carry neither acceleration nor battery potential.
pub proof fn lemma_later_formats_give_no_reading(address: [u8; 6], payload: Seq<u8>)
    requires
        decode_failure(MANUFACTURER_DATA_ID, payload) is None,
        payload[0] == 6 || payload[0] == 0xE1,
    ensures
        decode_result(MANUFACTURER_DATA_ID, payload) is Ok,
        routed(address, decode_result(MANUFACTURER_DATA_ID, payload)) is None,
{
}

/// The manufacturer identifier that leads `data`: its first two bytes,
/// least significant first.
pub open spec fn manufacturer_id(data: Seq<u8>) -> u16
    recommends
        data.len() >= 2,
{
    (data[1] as int * 256 + data[0] as int) as u16
}

/// What one advertisement gives: nothing where the identifier is unknown or
/// a mandatory measurement is absent, a failure where the payload is
/// malformed, else a reading.
pub open spec fn routed(address: [u8; 6], outcome: Result<Measurements, DecodeError>) -> Option<
    Result<SensorData, DecodeError>,
> {
    match outcome {
        Ok(m) => match projection(address, m) {
            Some(data) => Some(Ok(data)),
            None => None,
        },
        Err(DecodeError::UnknownManufacturerId(_)) => None,
        Err(e) => Some(Err(e)),
    }
}

/// What the manufacturer data of the device at `address` gives: nothing
/// where there is none or it holds no more than the identifier.
pub open spec fn sensor_data_of(address: [u8; 6], data: Option<Seq<u8>>) -> Option<
    Result<SensorData, DecodeError>,
> {
    match data {
        None => None,
        Some(d) => if d.len() <= 2 {
            None
        } else {
            routed(address, decode_result(manufacturer_id(d), d.skip(2)))
        },
    }
}

impl Measurements {
    /// Decodes the payload that follows the manufacturer identifier `id`.
    pub fn from_manufacturer_specific_data(id: u16, payload: &[u8]) -> (r: Result<
        Measurements,
        DecodeError,
    >)
        ensures
            r == decode_result(id, payload@),
    {
        decode_payload(id, payload)
    }
}

impl SensorData {
    /// Builds the reading of the device at `address` from what its payload
    /// held.
    pub fn from_measurements(address: [u8; 6], m: &Measurements) -> (r: Option<SensorData>)
        ensures
            r == projection(address, *m),
    {
        let humidity = m.humidity?;
        let temperature = m.temperature?;
        let pressure = m.pressure?;
        let acceleration = m.acceleration?;
        let battery_potential = m.battery_potential?;
        let mut data = SensorData::new(
            address,
            humidity,
            temperature,
            pressure,
            battery_potential,
            acceleration,
        );
        if let Some(sequence_number) = m.measurement_sequence_number {
            data.measurement_sequence_number = Some(sequence_number);
        }
        if let Some(movement_counter) = m.movement_counter {
            data.movement_counter = Some(movement_counter);
        }
        if let Some(tx_power) = m.tx_power {
            data.tx_power = Some(tx_power);
        }
        Some(data)
    }
}

/// Decides what a decoding outcome means for the sequence of readings.
pub fn route_outcome(address: [u8; 6], outcome: Result<Measurements, DecodeError>) -> (r: Option<
    Result<SensorData, DecodeError>,
>)
    ensures
        r == routed(address, outcome),
{
    match outcome {
        Ok(m) => match SensorData::from_measurements(address, &m) {
            Some(data) => Some(Ok(data)),
            None => None,
        },
        Err(DecodeError::UnknownManufacturerId(_)) => None,
        Err(e) => Some(Err(e)),
    }
}

/// Decodes the manufacturer data of the device at `address`, where it has
/// any: the identifier in the first two bytes, the payload after them.
pub fn parse_sensor_data(address: [u8; 6], data: Option<&[u8]>) -> (r: Option<
    Result<SensorData, DecodeError>,
>)
    ensures
        r == sensor_data_of(
            address,
            match data {
                Some(d) => Some(d@),
                None => None,
            },
        ),
{
    if let Some(data) = data {
        if data.len() > 2 {
            let id: u16 = data[1] as u16 * 256 + data[0] as u16;
            let payload = slice_subrange(data, 2, data.len());
            assert(payload@ =~= data@.skip(2));
            return route_outcome(address, Measurements::from_manufacturer_specific_data(id, payload));
        }
    }
    None
}

} // verus!
