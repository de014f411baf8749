[package]
name = "rmqtt"
version = "0.1.0"
edition = "2021"
rust-version = "1.95"
publish = false

[dependencies]
ahash = "=0.7.8"
async-trait = "=0.1.92"
base64 = "=0.13.1"
bytes = { version = "=1.12.1", features = ["serde"] }
bytestring = { version = "=1.5.1", features = ["serde"] }
chrono = "=0.4.45"
dashmap = "=4.0.2"
log = "=0.4.34"
ntex-mqtt = "=8.2.1"
serde = { version = "=1.0.229", features = ["derive"] }
serde_json = "=1.0.154"
tokio = { version = "=1.54.1", features = ["sync", "rt"] }
