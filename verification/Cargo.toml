[package]
name = "duplex_ext"
version = "0.1.0"
edition = "2021"
publish = false

[dependencies]
humantime = "2"
serde_json = "1"
rust_decimal = "1"
serde = { version = "1", features = ["derive"] }
thiserror = "1"
tokio = { version = "1", features = ["time", "rt", "rt-multi-thread", "sync", "net", "macros"] }
tokio-tungstenite = "*"
futures-core = "0.3"
futures-util = "0.3"
tracing = "0.1"
tracing-subscriber = { version = "0.3", features = ["env-filter", "json"] }
tracing-appender = "0.2"
ratatui = "*"
arrayvec = "0.7"
