[package]
name = "host_programs"
version = "0.1.0"
edition = "2021"
publish = false

[dependencies]
solana-sha256-hasher = { version = "=3.1.0", features = ["sha2"] }
anchor-lang = "=0.29.0"
