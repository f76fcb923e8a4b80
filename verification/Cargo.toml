[package]
name = "pitchroute"
version = "0.1.0"
edition = "2021"
publish = false

[dependencies]
coreaudio-rs = "*"
serde = { version = "*", features = ["derive"] }
serde_json = "*"
signal-hook = "*"
