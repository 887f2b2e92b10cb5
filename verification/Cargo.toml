[package]
name = "codex_code_mode"
version = "0.1.0"
edition = "2021"
publish = false

[dependencies]
serde = { version = "1", features = ["derive"] }
serde_json = "1"
tokio = { version = "1", features = ["io-util", "process", "rt", "rt-multi-thread", "sync", "macros"] }
tokio-util = "0.7"
