[package]
name = "dynamic_canisters"
version = "0.1.0"
edition = "2021"
publish = false

[dependencies]
ic-cdk = "0.8"
candid = "0.8"
serde = { version = "1", features = ["derive"] }
serde_bytes = "0.11"
