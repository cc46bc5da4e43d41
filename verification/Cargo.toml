[package]
name = "solana_client_icp"
version = "0.1.0"
edition = "2021"
publish = false

[dependencies]
borsh = "=1.8.1"
candid = "=0.10.39"
ic-cdk = "=0.16.1"
serde = { version = "=1.0.229", features = ["derive"] }
serde_json = "=1.0.154"
sha2 = "=0.10.9"
solana-sdk = "=1.18.0"
solana-extra-wasm = "=1.18.0"
