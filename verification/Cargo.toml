[package]
name = "quic_client"
version = "0.1.0"
edition = "2021"
publish = false

[dependencies]
quinn = "0.11"
url = "2"
tokio = { version = "1", features = ["rt-multi-thread", "time"] }
rustls = { version = "0.23", features = ["ring"] }
rustls-pki-types = "1"
