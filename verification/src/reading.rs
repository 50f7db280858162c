//! The reading that a sensor broadcast is decoded into.

use vstd::prelude::*;
use vstd::string::*;

verus! {

/// Zero degrees Celsius, in milli-kelvins.
pub const ZERO_CELSIUS_IN_MILLIKELVINS: u32 = 273_150;

/// The sixteen uppercase hexadecimal digits, in order of value.
pub open spec fn hex_digits() -> Seq<char> {
    seq!['0', '1', '2', '3', '4', '5', '6', '7', '8', '9', 'A', 'B', 'C', 'D', 'E', 'F']
}

/// The two uppercase hexadecimal digits of one octet, high digit first.
pub open spec fn octet_hex(b: u8) -> Seq<char> {
    seq![hex_digits()[b as int / 16], hex_digits()[b as int % 16]]
}

/// The text form of a hardware address: its six octets as two uppercase
/// hexadecimal digits each, the last octet first, with colons between.
pub open spec fn mac_string(address: Seq<u8>) -> Seq<char>
    recommends
        address.len() == 6,
{
    octet_hex(address[5]) + seq![':'] + octet_hex(address[4]) + seq![':'] + octet_hex(address[3])
        + seq![':'] + octet_hex(address[2]) + seq![':'] + octet_hex(address[1]) + seq![':']
        + octet_hex(address[0])
}

/// The value of an uppercase hexadecimal digit.
pub open spec fn hex_value(digit: char) -> int {
    if '0' <= digit && digit <= '9' {
        digit as int - '0' as int
    } else {
        digit as int - 'A' as int + 10
    }
}

/// The octet that two hexadecimal digits stand for, high digit first.
pub open spec fn octet_of(high: char, low: char) -> u8 {
    (hex_value(high) * 16 + hex_value(low)) as u8
}

/// The hardware address that a text of the form of `mac_string` stands
/// for, in the order in which it is transmitted.
pub open spec fn mac_address_of(text: Seq<char>) -> Seq<u8>
    recommends
        text.len() == 17,
{
    seq![
        octet_of(text[15], text[16]),
        octet_of(text[12], text[13]),
        octet_of(text[9], text[10]),
        octet_of(text[6], text[7]),
        octet_of(text[3], text[4]),
        octet_of(text[0], text[1]),
    ]
}

/// Reading the two digits of an octet gives the octet back.
pub proof fn lemma_octet_hex_reads_back(b: u8)
    ensures
        octet_hex(b).len() == 2,
        octet_of(octet_hex(b)[0], octet_hex(b)[1]) == b,
{
    let high = b as int / 16;
    let low = b as int % 16;
    assert(hex_value(hex_digits()[high]) == high);
    assert(hex_value(hex_digits()[low]) == low);
}

/// The text of an address has seventeen characters, reading it gives the
/// address back, and so rendering what was read gives the same text.
pub proof fn lemma_mac_string_reads_back(address: Seq<u8>)
    requires
        address.len() == 6,
    ensures
        mac_string(address).len() == 17,
        mac_address_of(mac_string(address)) == address,
        mac_string(mac_address_of(mac_string(address))) == mac_string(address),
{
    lemma_octet_hex_reads_back(address[0]);
    lemma_octet_hex_reads_back(address[1]);
    lemma_octet_hex_reads_back(address[2]);
    lemma_octet_hex_reads_back(address[3]);
    lemma_octet_hex_reads_back(address[4]);
    lemma_octet_hex_reads_back(address[5]);
    assert(mac_address_of(mac_string(address)) =~= address);
}

/// Values read from a RuuviTag sensor.
#[derive(Debug, Clone, Copy, PartialEq, Eq)]
pub struct SensorData {
    /// Sensor MAC address, in the order in which it was transmitted.
    pub mac_address: [u8; 6],
    /// Humidity in parts per million.
    pub humidity: u32,
    /// Temperature in milli-kelvins.
    pub temperature: u32,
    /// Pressure in pascals.
    pub pressure: u32,
    /// 3-dimensional acceleration vector, each component is in milli-G.
    pub acceleration: (i16, i16, i16),
    /// Battery potential in milli-volts.
    pub battery_potential: u16,
    /// Transmitter power in dBm.
    pub tx_power: Option<i8>,
    /// Movement counter.
    pub movement_counter: Option<u32>,
    /// Measurement sequence number.
    pub measurement_sequence_number: Option<u32>,
}

/// The text of one hexadecimal digit.
fn hex_digit_str(n: u8) -> (s: &'static str)
    requires
        n < 16,
    ensures
        s@ == seq![hex_digits()[n as int]],
{
    let digits = "0123456789ABCDEF";
    proof {
        reveal_strlit("0123456789ABCDEF");
        assert(digits@ =~= hex_digits());
    }
    let s = digits.substring_char(n as usize, n as usize + 1);
    assert(s@ =~= seq![hex_digits()[n as int]]);
    s
}

/// Appends the two hexadecimal digits of `b` to `text`.
fn push_octet(text: &mut String, b: u8)
    ensures
        final(text)@ == old(text)@ + octet_hex(b),
{
    text.append(hex_digit_str(b / 16));
    text.append(hex_digit_str(b % 16));
    assert(final(text)@ =~= old(text)@ + octet_hex(b));
}

/// Appends a colon to `text`.
fn push_colon(text: &mut String)
    ensures
        final(text)@ == old(text)@ + seq![':'],
{
    proof {
        reveal_strlit(":");
    }
    text.append(":");
    assert(final(text)@ =~= old(text)@ + seq![':']);
}

impl SensorData {
    /// A reading with the mandatory measurements and none of the optional ones.
    pub fn new(
        mac_address: [u8; 6],
        humidity: u32,
        temperature: u32,
        pressure: u32,
        battery_potential: u16,
        acceleration: (i16, i16, i16),
    ) -> (data: Self)
        ensures
            data == (SensorData {
                mac_address,
                humidity,
                temperature,
                pressure,
                acceleration,
                battery_potential,
                tx_power: None,
                movement_counter: None,
                measurement_sequence_number: None,
            }),
    {
        Self {
            mac_address,
            humidity,
            temperature,
            pressure,
            acceleration,
            battery_potential,
            tx_power: None,
            movement_counter: None,
            measurement_sequence_number: None,
        }
    }

    /// The temperature in milli-Celsius, as a mathematical integer.
    pub open spec fn millicelsius(&self) -> int {
        self.temperature - ZERO_CELSIUS_IN_MILLIKELVINS
    }

    /// The temperature in milli-Celsius: the stored milli-kelvins less
    /// 273 150, exactly. The result must fit in an `i32`.
    pub fn temperature_as_millicelsius(&self) -> (r: i32)
        requires
            self.millicelsius() <= i32::MAX,
        ensures
            r == self.millicelsius(),
    {
        (self.temperature as i64 - ZERO_CELSIUS_IN_MILLIKELVINS as i64) as i32
    }

    /// The address as text, most significant octet first.
    pub fn mac_address_as_string(&self) -> (s: String)
        ensures
            s@ == mac_string(self.mac_address@),
    {
        let mut s = String::new();
        push_octet(&mut s, self.mac_address[5]);
        push_colon(&mut s);
        push_octet(&mut s, self.mac_address[4]);
        push_colon(&mut s);
        push_octet(&mut s, self.mac_address[3]);
        push_colon(&mut s);
        push_octet(&mut s, self.mac_address[2]);
        push_colon(&mut s);
        push_octet(&mut s, self.mac_address[1]);
        push_colon(&mut s);
        push_octet(&mut s, self.mac_address[0]);
        assert(s@ =~= mac_string(self.mac_address@));
        s
    }
}

} // verus!
