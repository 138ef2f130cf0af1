[package]
name = "credence"
version = "0.1.0"
edition = "2021"
publish = false

[dependencies]
soroban-sdk = "=23.5.3"
stellar-baselib = "=0.6.0"
stellar-strkey = "=0.0.15"
soroban-client = "=0.6.0"
hex = "=0.4.3"
anyhow = "=1.0.104"
clap = { version = "=4.6.7", features = ["derive", "env"] }
serde_json = "=1.0.154"
tokio = { version = "=1.54.1", features = ["rt-multi-thread"] }
