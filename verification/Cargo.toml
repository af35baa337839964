[package]
name = "tool_proxy"
version = "0.1.0"
edition = "2021"
publish = false

[dependencies]
serde = { version = "=1.0.229", features = ["derive"] }
serde_json = "=1.0.151"
json5 = "=1.3.1"
jsonschema = { version = "=0.58.5", default-features = false }
axum = "=0.8.9"
tokio = { version = "=1.53.2", features = ["full"] }
reqwest = { version = "=0.13.5", default-features = false, features = ["json"] }
futures-util = "=0.3.34"
dotenvy = "=0.15.7"
