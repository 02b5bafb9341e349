[package]
name = "selector4nix"
version = "0.1.0"
edition = "2021"
publish = false

[dependencies]
url = "=2.5.8"
anyhow = "=1.0.104"
tokio = { version = "=1.54.1", features = ["rt-multi-thread", "macros", "sync", "time", "net"] }
axum = "=0.8.9"
reqwest = { version = "=0.12.28", default-features = false, features = ["stream", "rustls-tls"] }
redb = "=3.1.3"
serde = { version = "=1.0.229", features = ["derive"] }
serde_json = "=1.0.154"
toml = "*"
clap = { version = "=4.6.7", features = ["derive"] }
http = "=1.5.0"
bytes = "=1.12.1"
futures = "=0.3.34"
tracing = "=0.1.44"
tracing-subscriber = { version = "=0.3.23", features = ["env-filter"] }
