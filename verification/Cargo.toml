[package]
name = "veripact_backend"
version = "0.1.0"
edition = "2021"
publish = false

[dependencies]
candid = "0.10"
ic-cdk = "0.17"
serde = { version = "1", features = ["derive"] }
