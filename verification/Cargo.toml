[package]
name = "sigverify"
version = "0.1.0"
edition = "2021"
publish = false

[dependencies]
borsh = "*"
solana-program = "*"
thiserror = "*"
