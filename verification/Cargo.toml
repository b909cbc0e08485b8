[package]
name = "expiry_token"
version = "0.1.0"
edition = "2021"
publish = false

[dependencies]
borsh = { version = "1", features = ["derive"] }
solana-program = "2"
solana-sdk = "2"
