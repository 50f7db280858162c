use ruuvi_reader::SensorData;

fn sample(mac_address: [u8; 6], temperature: u32) -> SensorData {
    SensorData::new(mac_address, 115_000, temperature, 63_656, 2_182, (1000, 1255, 1510))
}

#[test]
fn new_sets_mandatory_fields_and_no_optional_ones() {
    let data = sample([1, 2, 3, 4, 5, 6], 274_840);
    assert_eq!(data.mac_address, [1, 2, 3, 4, 5, 6]);
    assert_eq!(data.humidity, 115_000);
    assert_eq!(data.temperature, 274_840);
    assert_eq!(data.pressure, 63_656);
    assert_eq!(data.battery_potential, 2_182);
    assert_eq!(data.acceleration, (1000, 1255, 1510));
    assert_eq!(data.tx_power, None);
    assert_eq!(data.movement_counter, None);
    assert_eq!(data.measurement_sequence_number, None);
}

#[test]
fn millicelsius_is_millikelvins_less_absolute_zero() {
    assert_eq!(sample([0; 6], 274_840).temperature_as_millicelsius(), 1_690);
    assert_eq!(sample([0; 6], 273_150).temperature_as_millicelsius(), 0);
    assert_eq!(sample([0; 6], 271_460).temperature_as_millicelsius(), -1_690);
    assert_eq!(sample([0; 6], 0).temperature_as_millicelsius(), -273_150);
}

#[test]
fn millicelsius_at_the_upper_limit() {
    let data = sample([0; 6], 2_147_483_647 + 273_150);
    assert_eq!(data.temperature_as_millicelsius(), i32::MAX);
}

#[test]
fn mac_address_is_rendered_in_reverse_order() {
    let data = sample([0x01, 0x02, 0x03, 0x04, 0x05, 0xCC], 274_840);
    assert_eq!(data.mac_address_as_string(), "CC:05:04:03:02:01");
}

#[test]
fn mac_address_octets_are_padded_and_uppercase() {
    let data = sample([0x00, 0x0A, 0xA0, 0xFF, 0x9F, 0x10], 274_840);
    assert_eq!(data.mac_address_as_string(), "10:9F:FF:A0:0A:00");
}

#[test]
fn mac_address_text_gives_back_the_address() {
    let address = [0x4F, 0x88, 0x4C, 0x33, 0xB8, 0xCB];
    let text = sample(address, 274_840).mac_address_as_string();
    assert_eq!(text.len(), 17);
    let mut parsed: Vec<u8> = text
        .split(':')
        .map(|octet| u8::from_str_radix(octet, 16).unwrap())
        .collect();
    parsed.reverse();
    assert_eq!(parsed, address.to_vec());
    let again = sample([parsed[0], parsed[1], parsed[2], parsed[3], parsed[4], parsed[5]], 0);
    assert_eq!(again.mac_address_as_string(), text);
}
