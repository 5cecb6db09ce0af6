[package]
name = "pikadick"
version = "0.1.0"
edition = "2021"
publish = false

[dependencies]
url = "=2.5.8"
itoa = "=1.0.18"
serde = { version = "=1.0.229", features = ["derive"] }
serde_json = "=1.0.154"
reqwest = { version = "=0.12.28", default-features = false, features = ["json", "rustls-tls"] }
tokio = { version = "=1.54.1", features = ["process", "rt", "macros"] }
thiserror = "=2.0.21"
anyhow = "=1.0.104"
serenity = { version = "0.12", default-features = false, features = ["chrono"] }
