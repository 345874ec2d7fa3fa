[package]
name = "timestitch"
version = "0.1.0"
edition = "2021"
publish = false

[dependencies]
anyhow = "1"
chrono = "0.4"
clap = { version = "4", features = ["derive"] }
colored = "2"
regex = "1"
ron = "0.8"
rustc_version_runtime = "0.3"
serde = { version = "1", features = ["derive"] }
serde_regex = "1"
toml = "0.5"
tracing = "0.1"
tracing-appender = "0.2"
tracing-subscriber = { version = "0.3", features = ["env-filter"] }
