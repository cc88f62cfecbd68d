[package]
name = "capture_trigger"
version = "0.1.0"
edition = "2021"
publish = false

[dependencies]
chrono = "0.4"
dirs = "*"
rdev = "0.5"

[dev-dependencies]
serde_json = "1"
