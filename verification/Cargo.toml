[package]
name = "decent_social"
version = "0.1.0"
edition = "2021"
publish = false

[dependencies]
solana-program = "=2.1.21"
solana-sdk = "=2.1.21"
borsh = "=1.8.1"
home = "=0.5.12"
yaml-rust = "=0.4.5"
