[package]
name = "weather_bot_rust"
version = "0.1.0"
edition = "2021"
publish = false

[dependencies]
bb8-postgres = "0.8"
chrono = "0.4"
cron = "0.12"
fang = { version = "0.10", default-features = false, features = ["asynk"] }
frankenstein = { version = "0.22", default-features = false, features = ["async-http-client"] }
lazy_static = "1"
log = "0.4"
postgres-types = { version = "0.2", features = ["derive"] }
pretty_env_logger = "0.4"
reqwest = { version = "0.11", default-features = false, features = ["rustls-tls"] }
serde = { version = "1", features = ["derive"] }
serde_json = "1"
thiserror = "1"
tokio = { version = "1", features = ["full"] }
typed-builder = "0.10"
