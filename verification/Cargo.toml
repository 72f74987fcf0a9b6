[package]
name = "tempo_proxy_api"
version = "0.1.0"
edition = "2021"
publish = false

[dependencies]
anyhow = "*"
axum = "*"
chrono = "*"
clap = { version = "*", features = ["derive", "env"] }
reqwest = { version = "*", default-features = false, features = ["json"] }
serde = { version = "*", features = ["derive"] }
serde_json = "*"
tokio = { version = "*", features = ["rt-multi-thread", "macros", "sync", "net"] }
tracing = "*"
tracing-subscriber = { version = "*", features = ["env-filter", "fmt"] }
