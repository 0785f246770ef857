[package]
name = "created"
version = "0.1.0"
edition = "2021"
publish = false

[dependencies]
ctrlc = "*"
env_logger = "*"
log = "*"
serde = { version = "*", features = ["derive"] }
serialport = { version = "*", default-features = false }
toml = "*"
