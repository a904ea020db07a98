[package]
name = "cnear"
version = "1.0.0"
edition = "2021"
publish = false

[dependencies]
anyhow = "1"
clap = { version = "4", default-features = false, features = ["derive", "std", "help", "usage", "error-context"] }
hex = "0.4"
near-contract-standards = "5"
near-crypto = "*"
near-gas = "*"
near-jsonrpc-client = { version = "*", default-features = false }
near-jsonrpc-primitives = "*"
near-plugins = "*"
near-primitives = "*"
near-sdk = { version = "5", features = ["unit-testing"] }
near-token = "*"
serde = { version = "1", features = ["derive"] }
serde_json = "1"
sha2 = "0.10"
tokio = { version = "1", default-features = false, features = ["rt", "macros", "time"] }
