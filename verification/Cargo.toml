[package]
name = "sled_es"
version = "0.1.0"
edition = "2021"
publish = false

[dependencies]
cqrs-es = "=0.0.20"
serde = { version = "=1.0.229", features = ["derive"] }
serde_json = "=1.0.154"
sled = "=0.34.7"
