[package]
name = "winserial"
version = "0.1.0"
edition = "2021"
publish = false

[dependencies]
crossbeam-channel = "0.5"
serialport = { version = "4", default-features = false }
