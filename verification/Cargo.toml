[package]
name = "mosh_love_oov"
version = "0.1.0"
edition = "2021"
publish = false

[dependencies]
solana-program = "2"
spl-token = { version = "6", features = ["no-entrypoint"] }
