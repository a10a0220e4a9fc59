[package]
name = "prom_eagle"
version = "0.1.0"
edition = "2021"
publish = false

[dependencies]
serde_json = "1"
serde = { version = "1", features = ["derive"] }
serde_yaml = "0.9"
clap = "4"
log = "0.4"
env_logger = "0.11"
reqwest = { version = "0.11", default-features = false, features = ["blocking", "rustls-tls"] }
