[package]
name = "rift"
version = "0.1.0"
edition = "2021"
publish = false

[dependencies]
url = "=2.5.8"
serde = { version = "=1.0.229", features = ["derive"] }
serde_json = "=1.0.154"
regex = "=1.13.1"
thiserror = "=2.0.21"
hex = "=0.4.3"
rand = "=0.9.5"
chrono = "=0.4.45"
dotenvy = "=0.15.7"
clap = { version = "=4.6.7", features = ["derive"] }
tracing = "=0.1.44"
tracing-subscriber = { version = "=0.3.23", features = ["env-filter"] }
tokio = { version = "=1.54.1", features = ["macros", "rt-multi-thread", "net", "sync", "time"] }
axum = "=0.8.9"
dashmap = "=6.2.1"
reqwest = { version = "=0.12.28", default-features = false, features = ["json"] }
tower-http = { version = "0.6", features = ["cors", "limit"] }
