[package]
name = "tmcp"
version = "0.1.0"
edition = "2021"
publish = false

[dependencies]
base64 = "=0.23.1"
serde = { version = "=1.0.229", features = ["derive"] }
serde_json = "=1.0.151"
uuid = { version = "=1.27.0", features = ["v4"] }
tsp_sdk = { version = "=0.15.0", default-features = false, features = ["resolve"] }
reqwest = { version = "=0.13.5", default-features = false, features = ["json", "stream"] }
futures = "=0.3.34"
http = "=1.5.0"
sse-stream = "=0.3.0"
url = "=2.5.8"
