[package]
name = "ore_miner"
version = "0.1.0"
edition = "2021"
publish = false

[dependencies]
bs58 = "0.5"
colored = "2"
drillx = "~2.0"
num_cpus = "1"
ore-api = "~2.1"
rand = "0.8"
solana-program = "1.18"
solana-sdk = "1.18"
