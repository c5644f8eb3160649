[package]
name = "tss_bridge_node"
version = "0.1.0"
edition = "2021"
publish = false

[dependencies]
rand = "=0.8.8"
crossbeam = "=0.8.5"
serde = { version = "=1.0.229", features = ["derive"] }
serde_json = "=1.0.154"
modular-frost = { version = "0.11", features = ["ed25519"] }
