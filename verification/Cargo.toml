[package]
name = "ld2412"
version = "0.1.0"
edition = "2021"
publish = false

[dependencies]
log = "*"
env_logger = "*"
serialport = { version = "*", default-features = false }
