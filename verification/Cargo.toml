[package]
name = "esb_bridge"
version = "0.1.0"
edition = "2021"
publish = false

[dependencies]
crc16 = "*"
serialport = { version = "*", default-features = false }
