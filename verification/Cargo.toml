[package]
name = "zero_day_futures"
version = "0.1.0"
edition = "2021"
publish = false

[dependencies]
anyhow = "*"
axum = { version = "*", features = ["ws"] }
serde = { version = "*", features = ["derive"] }
serde_json = "*"
thiserror = "*"
tokio = { version = "*", features = ["rt-multi-thread", "macros", "net", "time", "sync"] }
tower-http = { version = "*", features = ["fs"] }
tracing = "*"
tracing-subscriber = { version = "*", features = ["env-filter"] }
