[package]
name = "unified_trading"
version = "0.1.0"
edition = "2021"
publish = false

[dependencies]
arc-swap = "1"
axum = { version = "0.7", features = ["ws"] }
chrono = "0.4"
crossbeam-channel = "0.5"
futures-util = "0.3"
libc = "0.2"
notify = "6"
parking_lot = "0.12"
serde = { version = "1", features = ["derive"] }
serde_json = "1"
tokio = { version = "1", features = ["rt", "net", "time", "signal", "macros", "sync"] }
toml = "0.8"
tracing = "0.1"
tracing-subscriber = { version = "0.3", features = ["env-filter"] }
uuid = { version = "1", features = ["v4"] }
