[package]
name = "ftdx_1chm"
version = "0.1.0"
edition = "2021"
publish = false

[dependencies]
heapless = "0.8"
clap = { version = "4", features = ["derive"] }
csv = "1"
env_logger = "0.11"
indicatif = "0.17"
log = "0.4"
serde = { version = "1", features = ["derive"] }
serialport = { version = "4", default-features = false }
