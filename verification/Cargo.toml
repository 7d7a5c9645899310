[package]
name = "websocket_bridge"
version = "0.1.0"
edition = "2021"
publish = false

[dependencies]
anyhow = "1"
axum = { version = "0.6", features = ["headers", "ws"] }
axum-server = { version = "0.5", features = ["tls-rustls"] }
clap = { version = "4", features = ["derive"] }
dashmap = "5"
futures = "0.3"
headers = "0.3"
http = "0.2"
once_cell = "1"
pretty_env_logger = "0.5"
regex = "1"
reqwest = { version = "0.11", default-features = false, features = ["rustls-tls"] }
serde = { version = "1", features = ["derive"] }
tokio = { version = "1", features = ["macros", "rt-multi-thread", "sync"] }
tower-http = { version = "0.4", features = ["cors", "trace"] }
tracing = "0.1"
url = "2"
uuid = { version = "1", features = ["serde", "v4"] }
