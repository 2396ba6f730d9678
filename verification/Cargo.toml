[package]
name = "watson"
version = "0.1.0"
edition = "2021"
publish = false

[dependencies]
regex = "1"
rand = "0.8"
clap = { version = "4", features = ["derive"] }
reqwest = { version = "0.12", default-features = false, features = ["rustls-tls", "blocking"] }
tokio = { version = "1", features = ["rt-multi-thread", "macros", "sync", "time"] }
serde = { version = "1", features = ["derive"] }
serde_json = "1"
env_logger = "0.11"
chrono = "0.4"
tracing = "0.1"
ratatui = "0.26"
