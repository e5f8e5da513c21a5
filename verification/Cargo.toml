[package]
name = "biiot"
version = "0.1.0"
edition = "2021"
publish = false

[dependencies]
ethereum-types = "=0.16.0"
sha3 = "=0.12.0"
hex = "=0.4.3"
rlp = "=0.6.1"
regex = "=1.13.1"
serde = { version = "=1.0.229", features = ["derive"] }
serde_json = "=1.0.154"
chrono = "=0.4.45"
rusqlite = "=0.40.2"
secp256k1 = { version = "*", features = ["recovery"] }
rand = "*"
