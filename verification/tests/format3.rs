use ruuvi_reader::{Measurements, Observation, ScanEvent, ScanReplay};

fn encode(m: &Measurements) -> Vec<u8> {
    let humidity = (m.humidity.unwrap() / 5_000) as u8;
    let millicelsius = m.temperature.unwrap() as i64 - 273_150;
    let magnitude = millicelsius.abs();
    let sign: u8 = if millicelsius < 0 { 0x80 } else { 0 };
    let whole = sign | (magnitude / 1000) as u8;
    let hundredths = ((magnitude % 1000) / 10) as u8;
    let pressure = ((m.pressure.unwrap() - 50_000) as u16).to_be_bytes();
    let (x, y, z) = m.acceleration.unwrap();
    let battery = m.battery_potential.unwrap().to_be_bytes();
    let mut bytes = vec![3, humidity, whole, hundredths, pressure[0], pressure[1]];
    bytes.extend_from_slice(&x.to_be_bytes());
    bytes.extend_from_slice(&y.to_be_bytes());
    bytes.extend_from_slice(&z.to_be_bytes());
    bytes.extend_from_slice(&battery);
    bytes
}

fn round_trip(payload: [u8; 14]) {
    let m = Measurements::from_manufacturer_specific_data(0x0499, &payload).unwrap();
    assert_eq!(encode(&m), payload.to_vec());
}

#[test]
fn format_3_round_trip_of_positive_values() {
    round_trip([0x03, 0x17, 0x01, 0x45, 0x35, 0x58, 0x03, 0xE8, 0x04, 0xE7, 0x05, 0xE6, 0x08, 0x86]);
}

#[test]
fn format_3_round_trip_of_negative_values() {
    round_trip([0x03, 0x17, 0x81, 0x45, 0x35, 0x58, 0xFC, 0x18, 0xFB, 0x19, 0xFA, 0x1A, 0x08, 0x86]);
}

#[test]
fn format_3_round_trip_at_the_limits() {
    round_trip([0x03, 0x00, 0x00, 0x00, 0x00, 0x00, 0x80, 0x00, 0x7F, 0xFF, 0x00, 0x00, 0x00, 0x00]);
    round_trip([0x03, 0xFF, 0x7F, 0x63, 0xFF, 0xFF, 0xFF, 0xFF, 0x00, 0x01, 0x80, 0x01, 0xFF, 0xFF]);
    round_trip([0x03, 0xC8, 0xFF, 0x63, 0x00, 0x01, 0x00, 0x00, 0x00, 0x00, 0x00, 0x00, 0x0B, 0xB8]);
}

#[test]
fn format_3_limits_in_physical_units() {
    let payload = [0x03, 0xFF, 0xFF, 0x63, 0xFF, 0xFF, 0x80, 0x00, 0x7F, 0xFF, 0xFF, 0xFF, 0xFF, 0xFF];
    let m = Measurements::from_manufacturer_specific_data(0x0499, &payload).unwrap();
    assert_eq!(m.humidity, Some(1_275_000));
    assert_eq!(m.temperature, Some(145_160));
    assert_eq!(m.pressure, Some(115_535));
    assert_eq!(m.acceleration, Some((-32_768, 32_767, -1)));
    assert_eq!(m.battery_potential, Some(65_535));
}

#[test]
fn replay_yields_what_the_whole_feed_amounts_to() {
    let valid = vec![
        0x99, 0x04, 0x03, 0x17, 0x01, 0x45, 0x35, 0x58, 0x03, 0xE8, 0x04, 0xE7, 0x05, 0xE6, 0x08,
        0x86,
    ];
    let feed = vec![
        Observation { event: ScanEvent::Other, manufacturer_data: None },
        Observation {
            event: ScanEvent::DeviceDiscovered([1, 2, 3, 4, 5, 6]),
            manufacturer_data: Some(valid.clone()),
        },
        Observation {
            event: ScanEvent::DeviceUpdated([1, 2, 3, 4, 5, 6]),
            manufacturer_data: Some(vec![0x99, 0x04, 0x05, 0x00]),
        },
        Observation {
            event: ScanEvent::DeviceDiscovered([6, 5, 4, 3, 2, 1]),
            manufacturer_data: Some(vec![0x4C, 0x00, 0x02, 0x15]),
        },
        Observation {
            event: ScanEvent::DeviceUpdated([6, 5, 4, 3, 2, 1]),
            manufacturer_data: Some(valid),
        },
    ];
    let all = ruuvi_reader::scan_results(&feed);
    let mut replay = ScanReplay::new(feed);
    let mut pulled = Vec::new();
    while let Some(result) = replay.next() {
        pulled.push(result);
    }
    assert_eq!(pulled, all);
    assert_eq!(all.len(), 3);
    assert!(all[0].is_ok());
    assert!(all[1].is_err());
    assert!(all[2].is_ok());
    assert_eq!(replay.position, 5);
}
