[package]
name = "adapter_supervisor"
version = "0.1.0"
edition = "2021"
publish = false

[dependencies]
serde = { version = "=1.0.229", features = ["derive"] }
serde_json = "=1.0.154"
tauri = { version = "2", default-features = false }
tokio = { version = "=1.54.1", features = ["sync", "time", "rt", "fs"] }
uuid = { version = "=1.29.0", features = ["v4"] }
