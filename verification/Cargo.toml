[package]
name = "archive_bridge"
version = "0.1.0"
edition = "2021"
publish = false

[dependencies]
lazy_static = "1"
libc = "0.2"
tokio = { version = "1", features = ["rt-multi-thread"] }
