[package]
name = "todos"
version = "0.1.0"
edition = "2021"
publish = false

[dependencies]
axum = "0.7"
color-eyre = "0.6"
serde = { version = "1", features = ["derive"] }
serde_json = "1"
thiserror = "1"
tokio = { version = "1", features = ["macros", "net", "rt-multi-thread", "sync"] }
tracing = "0.1"
tracing-subscriber = "0.3"
uuid = { version = "1", features = ["v4"] }
