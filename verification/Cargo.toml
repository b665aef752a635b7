[package]
name = "credential_exchange"
version = "0.1.0"
edition = "2021"
publish = false

[dependencies]
base64 = "0.22"
colored = "2"
dialoguer = "0.11"
flate2 = "1"
hpke = { version = "0.12", features = ["p384", "p521"] }
rand = "0.8"
serde = { version = "1", features = ["derive"] }
serde_json = "1"
