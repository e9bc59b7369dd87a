[package]
name = "json_api"
version = "0.1.0"
edition = "2021"
publish = false

[dependencies]
hex = "0.4"
bincode = "1"
chrono = "0.4"
sha3 = "0.10"
ed25519-dalek = "2"
serde = { version = "1", features = ["derive"] }
serde_json = "1"
rand = "0.8"
