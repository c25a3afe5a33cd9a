[package]
name = "media_source"
version = "0.1.0"
edition = "2021"
publish = false

[dependencies]
mime = "*"
ipc-channel = "*"
serde = { version = "*", features = ["derive"] }
