[package]
name = "reverse-proxy"
version = "0.1.0"
edition = "2021"
publish = false

[dependencies]
bytes = "1"
futures = "0.3"
log = "0.4"
log4rs = "1"
parking_lot = "0.11"
quinn = "0.7"
serde = { version = "1", features = ["derive"] }
serde_json = "1"
tokio = { version = "1", features = ["full"] }
