[package]
name = "wallet_crypto"
version = "0.1.0"
edition = "2021"
publish = false

[dependencies]
concordium_base = "=1.2.0"
ed25519-dalek = "=1.0.1"
hex = "=0.4.3"
pairing = "=0.15.1"
rand = "=0.7.3"
serde = { version = "=1.0.229", features = ["derive"] }
serde_json = "=1.0.154"
sha2 = "=0.10.9"
