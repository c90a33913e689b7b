[package]
name = "terracotta_core"
version = "0.1.0"
edition = "2021"
publish = false

[dependencies]
rand = "0.8"
serde_json = "1"
tokio = { version = "1", features = ["rt", "rt-multi-thread", "sync"] }
tracing = "0.1"
tracing-subscriber = { version = "0.3", features = ["env-filter", "fmt"] }
