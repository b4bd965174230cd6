[package]
name = "transaction_engine"
version = "0.1.0"
edition = "2021"
publish = false

[dependencies]
anyhow = "*"
clap = { version = "*", features = ["derive"] }
csv = "*"
fixed = "*"
serde = { version = "*", features = ["derive"] }
