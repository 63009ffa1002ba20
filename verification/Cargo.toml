[package]
name = "carbon-core"
version = "0.1.0"
edition = "2021"
publish = false

[dependencies]
async-trait = "=0.1.92"
log = "=0.4.34"
serde = "=1.0.229"
solana-sdk = "=2.3.1"
solana-transaction-status = "=2.3.13"
tokio = { version = "=1.54.1", features = ["rt", "sync"] }
tokio-util = "=0.7.20"
uuid = { version = "=1.29.0", features = ["v4"] }
