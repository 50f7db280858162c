[package]
name = "ruuvi_reader"
version = "0.1.0"
edition = "2021"
publish = false

[dependencies]
btleplug = "0.5"
ruuvi-sensor-protocol = "*"
