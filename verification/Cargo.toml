[package]
name = "webview_bridge"
version = "0.1.0"
edition = "2021"
publish = false

[dependencies]
serde = { version = "*", features = ["derive"] }
serde_json = "*"
dirs = "*"
sys-locale = "*"
rand = "*"
notify-rust = "*"
