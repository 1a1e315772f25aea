[package]
name = "escrow"
version = "0.1.0"
edition = "2021"
publish = false

[dependencies]
spl-token = { version = "=9.0.0", features = ["no-entrypoint"] }
solana-pubkey = { version = "=3.0.0", features = ["curve25519"] }
solana-rent = { version = "=3.1.0", features = ["serde"] }
solana-sdk-ids = "=3.1.0"
bincode = "=1.3.3"
