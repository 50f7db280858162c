//! Data format 5, the layout of twenty-four bytes in which each field has
//! one value that stands for "not available": the format byte, then
//! temperature, humidity, pressure and three accelerations of two bytes
//! each, two bytes that hold battery potential and transmitter power,
//! the movement counter, the measurement sequence number and the address
//! of the sensor. Fields of two bytes hold the more significant one first.

use crate::decode::{
    decode_result, projection, sensor_data_of, DecodeError, Measurements, MANUFACTURER_DATA_ID,
};
use crate::format3::{be_signed, be_unsigned};
use vstd::prelude::*;

verus! {

/// The length of a payload of this format, the format byte included.
pub const FORMAT_5_LENGTH: usize = 24;

/// The temperature in milli-kelvins: steps of 0.005 degrees Celsius,
/// signed; the least number stands for none.
pub open spec fn format5_temperature(raw: int) -> Option<u32> {
    if raw == -32_768 {
        None
    } else {
        Some((273_150 + raw * 5) as u32)
    }
}

/// The humidity in parts per million: steps of 0.0025 percent; the
/// greatest number stands for none.
pub open spec fn format5_humidity(raw: int) -> Option<u32> {
    if raw == 0xFFFF {
        None
    } else {
        Some((raw * 25) as u32)
    }
}

/// The pressure in pascals, stored less 50 000; the greatest number stands
/// for none.
pub open spec fn format5_pressure(raw: int) -> Option<u32> {
    if raw == 0xFFFF {
        None
    } else {
        Some((raw + 50_000) as u32)
    }
}

/// The acceleration in milli-G; there is none where any axis holds the
/// least number.
pub open spec fn format5_acceleration(x: int, y: int, z: int) -> Option<(i16, i16, i16)> {
    if x == -32_768 || y == -32_768 || z == -32_768 {
        None
    } else {
        Some((x as i16, y as i16, z as i16))
    }
}

/// The battery potential in millivolts: the upper eleven bits of the
/// power field, above 1600 millivolts; all bits set stand for none.
pub open spec fn format5_battery_potential(power: int) -> Option<u16> {
    if power / 32 == 2047 {
        None
    } else {
        Some((1_600 + power / 32) as u16)
    }
}

/// The transmitter power in dBm: the lower five bits of the power field,
/// in steps of 2 dBm above -40 dBm; all bits set stand for none.
pub open spec fn format5_tx_power(power: int) -> Option<i8> {
    if power % 32 == 31 {
        None
    } else {
        Some(((power % 32) * 2 - 40) as i8)
    }
}

/// The movement counter; the greatest number stands for none.
pub open spec fn format5_movement_counter(raw: u8) -> Option<u32> {
    if raw == 0xFF {
        None
    } else {
        Some(raw as u32)
    }
}

/// The measurement sequence number; the greatest number stands for none.
pub open spec fn format5_sequence_number(raw: int) -> Option<u32> {
    if raw == 0xFFFF {
        None
    } else {
        Some(raw as u32)
    }
}

/// What a payload of this format holds.
pub open spec fn format5_measurements(payload: Seq<u8>) -> Measurements
    recommends
        payload.len() == FORMAT_5_LENGTH,
{
    Measurements {
        humidity: format5_humidity(be_unsigned(payload[3], payload[4])),
        temperature: format5_temperature(be_signed(payload[1], payload[2])),
        pressure: format5_pressure(be_unsigned(payload[5], payload[6])),
        acceleration: format5_acceleration(
            be_signed(payload[7], payload[8]),
            be_signed(payload[9], payload[10]),
            be_signed(payload[11], payload[12]),
        ),
        battery_potential: format5_battery_potential(be_unsigned(payload[13], payload[14])),
        tx_power: format5_tx_power(be_unsigned(payload[13], payload[14])),
        movement_counter: format5_movement_counter(payload[15]),
        measurement_sequence_number: format5_sequence_number(be_unsigned(payload[16], payload[17])),
    }
}

/// A payload of this format whose power field marks the battery potential
/// as not available is decoded, and gives no reading: it is passed over,
/// not reported.
pub proof fn lemma_format5_without_battery_gives_no_reading(address: [u8; 6], data: Seq<u8>)
    requires
        data.len() == 2 + FORMAT_5_LENGTH,
        data[0] == 0x99,
        data[1] == 0x04,
        data[2] == 5,
        data[15] == 0xFF,
        data[16] >= 0xE0,
    ensures
        decode_result(MANUFACTURER_DATA_ID, data.skip(2)) == Ok::<Measurements, DecodeError>(
            format5_measurements(data.skip(2)),
        ),
        format5_measurements(data.skip(2)).battery_potential is None,
        projection(address, format5_measurements(data.skip(2))) is None,
        sensor_data_of(address, Some(data)) is None,
{
}

} // verus!
