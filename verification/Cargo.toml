[package]
name = "codex_tools"
version = "0.1.0"
edition = "2021"
publish = false

[dependencies]
serde = { version = "1", features = ["derive"] }
serde_json = "1"
rmcp = { version = "*", default-features = false }
tokio = { version = "1", features = ["fs", "io-util", "rt", "macros"] }
dunce = "1"
uuid = { version = "1", features = ["v4"] }
