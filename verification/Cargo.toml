[package]
name = "serial_ctrl"
version = "0.1.0"
edition = "2021"
publish = false

[dependencies]
cobs = "0.2"
rand = "0.8"
loole = "*"
flume = "0.11"
once_cell = "1"
serde = { version = "1", features = ["derive"] }
serde_json = "1"
serialport = { version = "4", default-features = false }
clap = { version = "4", features = ["cargo"] }
