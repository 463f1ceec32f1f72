[package]
name = "connector_service"
version = "0.1.0"
edition = "2021"
publish = false

[dependencies]
base64 = "0.22"
hex = "0.4"
ring = "0.17"
serde = { version = "1", features = ["derive"] }
serde_json = "1"
serde_urlencoded = "0.7"
url = "2"
time = "0.3"
uuid = { version = "1", features = ["v4", "v7"] }
nanoid = "0.4"
