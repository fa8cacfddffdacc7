[package]
name = "chain_verifier"
version = "0.1.0"
edition = "2021"
publish = false

[dependencies]
rand = "0.8"
serde = { version = "1", features = ["derive"] }
serde_json = "1"
bcs = "0.1"
futures = "0.3"
