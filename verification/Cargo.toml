[package]
name = "smartsheet_rs"
version = "0.1.0"
edition = "2021"
publish = false

[dependencies]
http = "0.2"
hyper = { version = "0.14", features = ["client", "http1", "tcp"] }
hyper-rustls = "0.23"
rustls = "0.20"
serde = { version = "1", features = ["derive"] }
serde_json = "1"
