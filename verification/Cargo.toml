[package]
name = "titan-integration-template"
version = "0.1.0"
edition = "2021"
publish = false

[dependencies]
sha2 = "=0.11.1"
solana-pubkey = { version = "=4.4.0", features = ["curve25519"] }
quay-sdk = "=0.0.6"
spl-token-2022-interface = "=2.1.0"
solana-account = "=5.4.0"
solana-instruction = "=4.0.0"
solana-sdk-ids = "=3.1.0"
async-trait = "=0.1.92"
