[package]
name = "uptime_monitor"
version = "0.1.0"
edition = "2021"
publish = false

[dependencies]
serde_json = "1"
serde = { version = "1", features = ["derive"] }
tokio = { version = "1", features = ["full"] }
reqwest = { version = "0.11", default-features = false, features = ["rustls-tls"] }
warp = { version = "0.3", features = ["tls"] }
log = "0.4"
pretty_env_logger = "0.5"
lazy_static = "1"
futures-util = "0.3"
