[package]
name = "solana_fantasy_sports"
version = "0.1.0"
edition = "2021"
publish = false

[dependencies]
byteorder = "1"
solana-program = "2"
