[package]
name = "native_bridge"
version = "0.1.0"
edition = "2021"
publish = false

[dependencies]
libc = "0.2"
libloading = "0.8"
serde_json = "1"
tauri = { version = "2", default-features = false }
