[package]
name = "mint_provision"
version = "0.1.0"
edition = "2021"
publish = false

[dependencies]
solana-sdk = "=1.18.26"
solana-program = "=1.18.26"
spl-token = { version = ">=3.5.0, <5", features = ["no-entrypoint"] }
