[package]
name = "file_entries"
version = "0.1.0"
edition = "2021"
publish = false

[dependencies]
serde = { version = "1", features = ["derive"] }
tauri = { version = "2", default-features = false, features = ["wry"] }
tauri-plugin-window-state = { version = "2", default-features = false }
tokio = { version = "1", features = ["fs"] }
url = "2"
uuid = { version = "1", features = ["v4"] }
