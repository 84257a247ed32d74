[package]
name = "harness_desktop"
version = "0.2.0"
edition = "2021"
publish = false

[dependencies]
base64 = "0.22"
libc = "0.2"
serde = { version = "1", features = ["derive"] }
serde_json = "1"
tauri = { version = "2", default-features = false, features = ["wry", "unstable", "devtools"] }
tiny_http = "0.12"
url = "2"
