[package]
name = "alidns_updater"
version = "0.1.0"
edition = "2021"
publish = false

[dependencies]
anyhow = "1"
async-std = { version = "1", features = ["attributes"] }
base64 = "0.13"
chrono = "0.4"
clap = { version = "3", features = ["derive"] }
rust-crypto = "0.2"
serde = { version = "1", features = ["derive"] }
serde_json = "1"
surf = "2"
tide = "0.16"
tide-tracing = "*"
tracing-subscriber = "0.3"
url = "2"
