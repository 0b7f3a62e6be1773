[package]
name = "hub"
version = "0.1.0"
edition = "2021"
publish = false

[dependencies]
url = "=2.5.8"
uuid = { version = "=1.29.0", features = ["v4"] }
matrix-sdk = { version = "=0.13.0", default-features = false, features = ["rustls-tls"] }
tokio = { version = "=1.54.1", features = ["sync", "rt"] }
rinf = "=8.11.0"
serde = { version = "=1.0.229", features = ["derive"] }
