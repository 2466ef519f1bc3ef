[package]
name = "scope"
version = "0.1.0"
edition = "2021"
publish = false

[dependencies]
anyhow = "1"
borsh = "0.10"
bytemuck = "1"
quick-protobuf = "0.8"
solana-program = "=1.18.26"
solana-sdk = "=1.18.26"
tracing = "0.1"

[dev-dependencies]
pyth-client = "=0.2.2"
