[package]
name = "poweralert"
version = "0.1.0"
edition = "2021"
publish = false

[dependencies]
battery = "0.7"
log = "0.4"
serde = { version = "1", features = ["derive"] }
serde_json = "1"
tauri = { version = "2", default-features = false, features = ["wry", "tray-icon"] }
tokio = { version = "1", features = ["time"] }
