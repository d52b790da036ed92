[package]
name = "epic_wallet"
version = "0.1.0"
edition = "2021"
publish = false

[dependencies]
byteorder = "1"
ed25519-dalek = "1.0.1"
serde_json = "1"
sqlite = { version = "0.36", features = ["bundled"] }
uuid = "0.8"

[dev-dependencies]
rand = "0.8"
