[package]
name = "rssbot"
version = "0.1.0"
edition = "2021"
publish = false

[dependencies]
anyhow = "1"
chrono = "0.4"
deadpool-postgres = "*"
feed-rs = "2"
futures = "0.3"
regex = "1"
reqwest = { version = "0.12", default-features = false, features = ["rustls-tls"] }
serde = { version = "1", features = ["derive"] }
serde_json = "1"
serenity = { version = "0.12", default-features = false, features = ["builder", "cache", "chrono", "client", "gateway", "http", "model", "utils", "rustls_backend"] }
tokio = { version = "1", features = ["full"] }
tokio-cron-scheduler = "*"
tokio-postgres = { version = "0.7", features = ["with-chrono-0_4"] }
toml = "0.8"
tracing = "0.1"
tracing-subscriber = { version = "0.3", features = ["env-filter"] }
url = "2"
