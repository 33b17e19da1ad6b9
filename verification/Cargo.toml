[package]
name = "metrics_push"
version = "0.1.0"
edition = "2021"
publish = false

[dependencies]
anyhow = "1"
fastcrypto = "0.1"
prometheus = "0.13"
reqwest = { version = "0.12", default-features = false, features = ["rustls-tls"] }
snap = "1"
tokio = { version = "1", features = ["rt", "time"] }
tracing = "0.1"
url = "2"

[dev-dependencies]
protobuf = "2"
