//! Decoding of RuuviTag sensor broadcasts into typed readings, and the
//! rules by which a feed of scan events becomes a sequence of readings.

pub mod decode;
pub mod format3;
pub mod format5;
pub mod reading;
pub mod scan;

pub use crate::decode::{parse_sensor_data, DecodeError, Measurements};
pub use crate::reading::SensorData;
pub use crate::scan::{scan_results, Observation, ScanEvent, ScanReplay};
