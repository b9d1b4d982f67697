[package]
name = "arangors"
version = "0.1.0"
edition = "2021"
publish = false

[dependencies]
http = "=0.2.12"
maybe-async = "=0.2.11"
serde = { version = "=1.0.229", features = ["derive"] }
serde_json = "=1.0.154"
url = "=2.5.8"

[dev-dependencies]
serde_qs = "=1.1.3"
