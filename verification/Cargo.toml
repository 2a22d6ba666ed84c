[package]
name = "robotix"
version = "0.1.0"
edition = "2021"
publish = false

[dependencies]
chrono = { version = "=0.4.45", features = ["serde"] }
actix = "=0.13.5"
actix-web = "=4.15.0"
actix-web-actors = "=4.3.1"
actix-cors = "=0.7.2"
anyhow = "=1.0.104"
clap = { version = "=4.6.7", features = ["derive", "env"] }
dashmap = "*"
dotenvy = "=0.15.7"
serde = { version = "=1.0.229", features = ["derive"] }
serde_json = "=1.0.151"
thiserror = "=2.0.21"
tokio = { version = "=1.53.2", features = ["macros", "rt-multi-thread"] }
toml = "=1.1.7"
tracing = "=0.1.44"
tracing-subscriber = { version = "=0.3.23", features = ["env-filter"] }
uuid = { version = "=1.27.0", features = ["v4", "serde"] }
