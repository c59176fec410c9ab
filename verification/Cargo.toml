[package]
name = "amm_config_client"
version = "0.1.0"
edition = "2021"
publish = false

[dependencies]
solana-sdk = "=1.18.26"
clap = { version = "=4.6.7", features = ["derive"] }
anyhow = "=1.0.104"
bincode = "=1.3.3"
