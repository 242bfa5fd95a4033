[package]
name = "fssk_panels"
version = "0.1.0"
edition = "2021"
publish = false

[dependencies]
env_logger = "*"
log = "*"
serde = { version = "*", features = ["derive"] }
serialport = { version = "*", default-features = false }
simconnect-sdk = "*"
toml = "*"
