[package]
name = "echo_core"
version = "0.1.0"
edition = "2021"
publish = false

[dependencies]
solana-program = "=5.1.0"
solana-system-interface = { version = "=3.3.0", features = ["bincode"] }
spl-token = { version = "=9.0.0", features = ["no-entrypoint"] }
borsh = "=1.8.1"
