[package]
name = "ohsol"
version = "0.1.0"
edition = "2021"
publish = false

[dependencies]
anyhow = "1"
clap = { version = "4", features = ["derive", "env"] }
colored = "2"
comfy-table = "7"
flate2 = "1"
regex = "1"
serde = { version = "1", features = ["derive"] }
serde_json = "1"
solana-sdk = "2"
solana-transaction-status = "2"
