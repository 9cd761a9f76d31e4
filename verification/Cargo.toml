[package]
name = "aptos_tx"
version = "0.1.0"
edition = "2021"
publish = false

[dependencies]
aptos-sdk = "*"
aptos-testcontainer = "*"
serde_json = "1"
tokio = { version = "1", features = ["macros", "rt-multi-thread"] }
