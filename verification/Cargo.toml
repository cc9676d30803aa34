[package]
name = "gdax_client"
version = "1.2.0"
edition = "2021"
publish = false

[dependencies]
base64 = "0.13"
chrono = { version = "0.4", features = ["serde"] }
curl = "0.4"
rust-crypto = "0.2"
serde = { version = "1", features = ["derive"] }
serde_json = "1"
time = "0.1"
uuid = { version = "1", features = ["serde"] }
