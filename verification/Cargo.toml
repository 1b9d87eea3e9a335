[package]
name = "turnkey_rs"
version = "0.1.0"
edition = "2021"
publish = false

[dependencies]
p256 = { version = "0.13", features = ["ecdsa"] }
base64-url = "*"
serde = { version = "1", features = ["derive"] }
serde_json = "1"
bitcoin = "0.30"
alloy-primitives = "*"
solana-sdk = { version = "*", default-features = false }
rand = "0.9"
chrono = "0.4"
