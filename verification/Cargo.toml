[package]
name = "audio_purifai"
version = "0.1.0"
edition = "2021"
publish = false

[dependencies]
hound = "3"
serde = { version = "1", features = ["derive"] }
serde_json = "1"
tokio = { version = "1", features = ["process", "io-util", "sync", "time", "rt", "macros"] }
tauri = { version = "2", default-features = false, features = ["wry"] }
