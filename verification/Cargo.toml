[package]
name = "keystore"
version = "0.1.0"
edition = "2021"
publish = false

[dependencies]
aes-gcm = "0.10"
argon2 = "0.5"
sha3 = "0.10"
secp256k1 = { version = "0.31", features = ["std", "rand", "global-context"] }
rand = "0.9"
anyhow = "1"
jsonrpsee = { version = "0.26", features = ["server"] }
tokio = { version = "1", features = ["rt-multi-thread", "macros"] }
