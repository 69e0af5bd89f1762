[package]
name = "mihomo_tui"
version = "0.1.0"
edition = "2021"
publish = false

[dependencies]
serde_yaml = "=0.9.34"
unicode-width = "=0.2.0"
urlencoding = "=2.1.3"
serde = { version = "=1.0.229", features = ["derive"] }
serde_json = "=1.0.154"
clap = { version = "=4.6.7", features = ["derive", "env"] }
chrono = { version = "=0.4.45", default-features = false, features = ["clock", "std", "serde"] }
dirs = "=5.0.1"
flate2 = "=1.1.10"
zip = { version = "=2.6.1", default-features = false, features = ["deflate"] }
reqwest = { version = "=0.12.28", default-features = false, features = ["json"] }
tokio = { version = "=1.54.1", features = ["rt-multi-thread", "macros", "time", "sync", "process"] }
tokio-tungstenite = "=0.24.0"
futures-util = "=0.3.34"
crossterm = "=0.28.1"
ratatui = "=0.29.0"
tui-logger = "=0.14.5"
thiserror = "=1.0.69"
anyhow = "=1.0.104"
