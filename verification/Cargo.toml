[package]
name = "session_signals"
version = "0.1.0"
edition = "2021"
publish = false

[dependencies]
png = "0.18"
serde = { version = "1", features = ["derive"] }
serde_json = "1"
tauri = { version = "2", default-features = false }
tiny_http = "0.12"
