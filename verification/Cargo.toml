[package]
name = "home_cloud"
version = "0.1.0"
edition = "2021"
publish = false

[dependencies]
serde = { version = "=1.0.229", features = ["derive"] }
serde_json = { version = "=1.0.154", features = ["raw_value"] }
jsonwebtoken = "=7.2.0"
chrono = "=0.4.45"
rust_decimal = "=1.43.0"
base64 = "=0.13.1"
rustflake = "=0.1.1"
rand = "0.8"
