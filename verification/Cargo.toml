[package]
name = "mavlink_camera"
version = "0.1.0"
edition = "2021"
publish = false

[dependencies]
anyhow = "=1.0.104"
mavlink = { version = "=0.17.1", features = ["common", "emit-extensions"] }
sys-info = "=0.9.1"
