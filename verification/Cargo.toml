[package]
name = "quasar"
version = "0.1.0"
edition = "2021"
publish = false

[dependencies]
arrayref = "=0.3.9"
fixed = "=1.31.0"
solana-program = "=2.3.0"
spl-token = { version = "=8.0.0", features = ["no-entrypoint"] }
