[package]
name = "scene_bridge"
version = "0.1.0"
edition = "2021"
publish = false

[dependencies]
futures-util = { version = "=0.3.34", default-features = false, features = ["std"] }
serde = { version = "=1.0.229", features = ["derive"] }
serde_json = "=1.0.154"
tauri = { version = "2", default-features = false }
tokio = { version = "=1.54.1", features = ["net", "rt", "sync"] }
tokio-tungstenite = { version = "=0.30.0", default-features = false, features = ["handshake"] }
