[package]
name = "bitcoin_rpc_client"
version = "0.1.0"
edition = "2021"
publish = false

[dependencies]
base64 = "=0.13.1"
bitcoin = { version = "=0.32.102", features = ["serde"] }
jsonrpc_client = "=0.7.1"
reqwest = { version = "0.11", default-features = false, features = ["blocking"] }
serde = { version = "=1.0.229", features = ["derive"] }
serde_json = "=1.0.154"
