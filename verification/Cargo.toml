[package]
name = "pooled_staking"
version = "0.1.0"
edition = "2021"
publish = false

[dependencies]
solana-program = "=1.16.25"
anchor-lang = "=0.28.0"
anchor-spl = "=0.28.0"
raydium_amm = "=0.1.13"
