[package]
name = "core_service"
version = "0.1.0"
edition = "2021"
publish = false

[dependencies]
sha2 = "0.10"
hex = "0.4"
md5 = "*"
uuid = { version = "1", features = ["v4", "v5"] }
chrono = "0.4"
serde = { version = "1", features = ["derive"] }
serde_json = "1"
base64 = "0.22"
