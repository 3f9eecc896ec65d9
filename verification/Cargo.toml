[package]
name = "timeflippers"
version = "0.1.0"
edition = "2021"
publish = false

[dependencies]
anyhow = "1"
bluez-async = "=0.7.2"
bytes = "=1.12.1"
chrono = { version = "=0.4.45", default-features = false, features = ["std", "clock", "serde"] }
clap = { version = "4", features = ["derive"] }
env_logger = "0.11"
futures = "=0.3.34"
log = "=0.4.34"
serde = { version = "=1.0.229", features = ["derive"] }
serde_json = "1"
thiserror = "=1.0.69"
tokio = { version = "=1.54.1", features = ["macros", "rt-multi-thread", "signal", "fs"] }
toml = "=0.8.23"
uuid = "=1.29.0"
