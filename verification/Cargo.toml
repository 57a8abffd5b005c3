[package]
name = "asynqmon"
version = "0.1.0"
edition = "2021"
publish = false

[dependencies]
asynq = "*"
axum = "0.8"
tokio = { version = "1", features = ["macros", "rt-multi-thread", "net", "sync"] }
serde = { version = "1", features = ["derive"] }
tracing = "0.1"
tracing-subscriber = "0.3"
