[package]
name = "space_shutdown"
version = "0.1.0"
edition = "2021"
publish = false

[dependencies]
chrono = "=0.4.45"
env_logger = "=0.11.11"
futures = "=0.1.31"
libical-sys = "=0.1.3"
mqtt311 = "=0.2.0"
reqwest = "=0.9.24"
rumqtt = "=0.31.0"
serde = { version = "=1.0.229", features = ["derive"] }
serde_json = "=1.0.154"
tokio = "=0.1.22"
