//! Data format 3, the fixed layout of fourteen bytes: the format byte, the
//! humidity in steps of half a percent, the temperature as sign, whole
//! degrees and hundredths, the pressure less 50 000 pascals, three
//! accelerations and the battery potential, each of the last five as two
//! bytes, the more significant first.

use crate::decode::{decode_result, DecodeError, Measurements, MANUFACTURER_DATA_ID};
use vstd::prelude::*;

verus! {

/// The length of a payload of this format, the format byte included.
pub const FORMAT_3_LENGTH: usize = 14;

/// The unsigned number that two bytes hold, the more significant first.
pub open spec fn be_unsigned(high: u8, low: u8) -> int {
    high as int * 256 + low as int
}

/// The number that two bytes hold in two's complement, the more
/// significant first.
pub open spec fn be_signed(high: u8, low: u8) -> int {
    if high >= 128 {
        be_unsigned(high, low) - 65_536
    } else {
        be_unsigned(high, low)
    }
}

/// The temperature in milli-kelvins that the two temperature bytes stand
/// for: the top bit of the first is the sign, its other bits the whole
/// degrees Celsius, the second byte the hundredths.
pub open spec fn format3_millikelvins(whole: u8, hundredths: u8) -> int {
    let magnitude = (whole as int % 128) * 1000 + hundredths as int * 10;
    if whole < 128 {
        273_150 + magnitude
    } else {
        273_150 - magnitude
    }
}

/// What a payload of this format holds.
pub open spec fn format3_measurements(payload: Seq<u8>) -> Measurements
    recommends
        payload.len() == FORMAT_3_LENGTH,
{
    Measurements {
        humidity: Some((payload[1] as int * 5_000) as u32),
        temperature: Some(format3_millikelvins(payload[2], payload[3]) as u32),
        pressure: Some((be_unsigned(payload[4], payload[5]) + 50_000) as u32),
        acceleration: Some(
            (
                be_signed(payload[6], payload[7]) as i16,
                be_signed(payload[8], payload[9]) as i16,
                be_signed(payload[10], payload[11]) as i16,
            ),
        ),
        battery_potential: Some(be_unsigned(payload[12], payload[13]) as u16),
        tx_power: None,
        movement_counter: None,
        measurement_sequence_number: None,
    }
}

/// The more significant byte of a number of sixteen bits, signed or not.
pub open spec fn high_byte(value: int) -> u8 {
    (if value < 0 {
        (value + 65_536) / 256
    } else {
        value / 256
    }) as u8
}

/// The less significant byte of a number of sixteen bits, signed or not.
pub open spec fn low_byte(value: int) -> u8 {
    (if value < 0 {
        (value + 65_536) % 256
    } else {
        value % 256
    }) as u8
}

/// The first temperature byte for a temperature in milli-kelvins.
pub open spec fn whole_degrees_byte(millikelvins: int) -> u8 {
    let millicelsius = millikelvins - 273_150;
    (if millicelsius < 0 {
        128 + (-millicelsius) / 1000
    } else {
        millicelsius / 1000
    }) as u8
}

/// The second temperature byte for a temperature in milli-kelvins.
pub open spec fn hundredths_byte(millikelvins: int) -> u8 {
    let millicelsius = millikelvins - 273_150;
    (if millicelsius < 0 {
        ((-millicelsius) % 1000) / 10
    } else {
        (millicelsius % 1000) / 10
    }) as u8
}

/// The payload of this format that stands for the given physical values:
/// each scale of `format3_measurements` inverted.
pub open spec fn format3_payload(
    humidity: u32,
    temperature: u32,
    pressure: u32,
    acceleration: (i16, i16, i16),
    battery_potential: u16,
) -> Seq<u8> {
    seq![
        3u8,
        (humidity as int / 5_000) as u8,
        whole_degrees_byte(temperature as int),
        hundredths_byte(temperature as int),
        high_byte(pressure as int - 50_000),
        low_byte(pressure as int - 50_000),
        high_byte(acceleration.0 as int),
        low_byte(acceleration.0 as int),
        high_byte(acceleration.1 as int),
        low_byte(acceleration.1 as int),
        high_byte(acceleration.2 as int),
        low_byte(acceleration.2 as int),
        high_byte(battery_potential as int),
        low_byte(battery_potential as int),
    ]
}

/// Whether the temperature bytes are the one way to write their
/// temperature: fewer than a hundred hundredths, and no zero with the sign
/// set.
pub open spec fn canonical_temperature(whole: u8, hundredths: u8) -> bool {
    hundredths < 100 && !(whole == 128 && hundredths == 0)
}

/// Two bytes are the bytes of the number that they hold.
pub proof fn lemma_number_of_bytes(high: u8, low: u8)
    ensures
        high_byte(be_unsigned(high, low)) == high,
        low_byte(be_unsigned(high, low)) == low,
        high_byte(be_signed(high, low)) == high,
        low_byte(be_signed(high, low)) == low,
        -32_768 <= be_signed(high, low) <= 32_767,
        0 <= be_unsigned(high, low) <= 65_535,
{
}

/// Canonical temperature bytes are the bytes of their temperature.
pub proof fn lemma_bytes_of_temperature(whole: u8, hundredths: u8)
    requires
        canonical_temperature(whole, hundredths),
    ensures
        145_160 <= format3_millikelvins(whole, hundredths) <= 401_140,
        whole_degrees_byte(format3_millikelvins(whole, hundredths)) == whole,
        hundredths_byte(format3_millikelvins(whole, hundredths)) == hundredths,
{
}

/// Decoding a payload of this format succeeds, and encoding what was
/// decoded gives the payload back, byte for byte, where its temperature
/// bytes are canonical.
pub proof fn lemma_format3_round_trip(payload: Seq<u8>)
    requires
        payload.len() == FORMAT_3_LENGTH,
        payload[0] == 3,
        canonical_temperature(payload[2], payload[3]),
    ensures
        decode_result(MANUFACTURER_DATA_ID, payload) == Ok::<Measurements, DecodeError>(
            format3_measurements(payload),
        ),
        ({
            let m = format3_measurements(payload);
            format3_payload(
                m.humidity.unwrap(),
                m.temperature.unwrap(),
                m.pressure.unwrap(),
                m.acceleration.unwrap(),
                m.battery_potential.unwrap(),
            ) == payload
        }),
{
    lemma_bytes_of_temperature(payload[2], payload[3]);
    lemma_number_of_bytes(payload[4], payload[5]);
    lemma_number_of_bytes(payload[6], payload[7]);
    lemma_number_of_bytes(payload[8], payload[9]);
    lemma_number_of_bytes(payload[10], payload[11]);
    lemma_number_of_bytes(payload[12], payload[13]);
    let m = format3_measurements(payload);
    assert(format3_payload(
        m.humidity.unwrap(),
        m.temperature.unwrap(),
        m.pressure.unwrap(),
        m.acceleration.unwrap(),
        m.battery_potential.unwrap(),
    ) =~= payload);
}

} // verus!
