[package]
name = "rust_worker"
version = "0.1.0"
edition = "2021"
publish = false

[dependencies]
serde_json = "=1.0.151"
serde = { version = "=1.0.229", features = ["derive"] }
redis = "=1.7.1"
uuid = { version = "=1.27.0", features = ["v4"] }
libc = "=0.2.190"
