[package]
name = "agx"
version = "0.1.0"
edition = "2021"
publish = false

[dependencies]
anyhow = "1"
axum = "0.8"
chrono = { version = "0.4", features = ["serde"] }
colored = "3"
console = "=0.16.6"
etcetera = "0.11"
futures = "0.3"
reqwest = { version = "*", features = ["json"] }
rig-core = "=0.31.0"
rustyline = "*"
serde = { version = "1", features = ["derive"] }
serde_json = "=1.0.154"
shlex = "=1.3.0"
similar = { version = "=2.7.0", features = ["inline"] }
thiserror = "2"
tokio = { version = "1", features = ["full"] }
tokio-stream = { version = "0.1", features = ["sync"] }
tower-http = { version = "0.6", features = ["cors"] }
tracing = "0.1"
tracing-subscriber = { version = "0.3", features = ["env-filter", "json"] }
