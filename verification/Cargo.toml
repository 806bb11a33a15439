[package]
name = "screen_demo_lib"
version = "0.1.0"
edition = "2021"
publish = false

[dependencies]
base64 = "0.22"
memmap2 = "0.9"
tiny_http = "0.12"
serde = { version = "1", features = ["derive"] }
