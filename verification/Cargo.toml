[package]
name = "codex_support"
version = "0.1.0"
edition = "2021"
publish = false

[dependencies]
rand = "0.9"
http = "1"
tokio = { version = "1", features = ["time"] }
