[package]
name = "tauri-plugin-bare-kit"
version = "0.1.0"
edition = "2021"
publish = false

[dependencies]
base64 = "0.22"
serde = { version = "1", features = ["derive"] }
parking_lot = "0.12"
tokio = { version = "1", features = ["sync"] }
tauri = { version = "2", default-features = false }
