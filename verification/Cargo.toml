[package]
name = "electricity_meter_rs"
version = "0.1.0"
edition = "2021"
publish = false

[dependencies]
serialport = { version = "*", default-features = false }
sml-rs = "*"
prometheus = "*"
actix-web = "*"
actix-web-prom = "*"
