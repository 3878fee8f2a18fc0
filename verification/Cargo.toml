[package]
name = "countdown_timer"
version = "0.1.0"
edition = "2021"

[dependencies]
tauri = { version = "*", default-features = false }
