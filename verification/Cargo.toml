[package]
name = "random_proxy"
version = "0.1.0"
edition = "2021"
publish = false

[dependencies]
calimero-sdk = "*"
calimero-storage = "*"
serde_json = "1"
