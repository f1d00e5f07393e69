[package]
name = "lintx"
version = "0.1.0"
edition = "2021"
publish = false

[dependencies]
crc = "3"
clap = { version = "4", features = ["derive"] }
serialport = { version = "4", default-features = false }
toml = "0.8"
serde = { version = "1", features = ["derive"] }

[dev-dependencies]
rand = "0.8"
