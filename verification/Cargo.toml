[package]
name = "polyleverage_sim"
version = "0.1.0"
edition = "2021"
publish = false

[dependencies]
borsh = "1"
bytemuck = "1"
solana-sdk = "2.2"
spl-associated-token-account = "7"
spl-token = "8"
