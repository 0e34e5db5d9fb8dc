[package]
name = "mtg_spoilers"
version = "0.1.0"
edition = "2021"
publish = false

[dependencies]
regex = "1"
chrono = "0.4"
anyhow = "1"
serde = { version = "1", features = ["derive"] }
toml = "0.8"
tokio = { version = "1", features = ["full"] }
reqwest = { version = "0.11", default-features = false, features = ["json", "rustls-tls"] }
roux = "2"
sqlx = { version = "0.7", features = ["runtime-tokio", "sqlite", "chrono"] }
ratatui = "0.26"
crossterm = "0.27"
tracing = "0.1"
tracing-subscriber = "0.3"
