[package]
name = "agent_core"
version = "0.1.0"
edition = "2021"
publish = false

[dependencies]
uuid = { version = "=1.29.0", features = ["v4"] }
serde = { version = "=1.0.229", features = ["derive"] }
serde_json = "=1.0.154"
chrono = "=0.4.45"
sha2 = "=0.10.9"
base64 = "0.22"
ring = "0.17"

[dev-dependencies]
