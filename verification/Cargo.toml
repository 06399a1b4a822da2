[package]
name = "solana_vanity"
version = "0.1.0"
edition = "2021"
publish = false

[dependencies]
bip39 = "2"
bs58 = "0.5"
slip10 = "0.4"
solana-sdk = "1.18"
rand = "0.8"
clap = { version = "4", features = ["derive"] }
num_cpus = "1"
parking_lot = "0.12"
rayon = "1"
serde_json = "1"
