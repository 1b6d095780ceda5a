[package]
name = "launchlabs_buy"
version = "0.1.0"
edition = "2021"
publish = false

[dependencies]
solana-pubkey = { version = "*", features = ["curve25519", "sha2"] }
sha2 = "*"
solana-instruction = "*"
