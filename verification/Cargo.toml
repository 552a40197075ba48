[package]
name = "config_sdk"
version = "0.1.0"
edition = "2021"
publish = false

[dependencies]
serde_json = "*"
serde = { version = "*", features = ["derive"] }
reqwest = { version = "*", default-features = false, features = ["stream"] }
tokio = { version = "*", features = ["sync", "time", "rt-multi-thread", "macros"] }
futures = "*"
slog = "*"
slog-async = "*"
slog-json = "*"
slog-term = "*"
thiserror = "*"
