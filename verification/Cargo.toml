[package]
name = "transaction_pool"
version = "0.1.0"
edition = "2021"
publish = false

[dependencies]
base64 = "0.22"
serde_json = "1"
solana-sdk = "*"
