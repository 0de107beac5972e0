[package]
name = "astarte_client"
version = "0.1.0"
edition = "2021"
publish = false

[dependencies]
astarte-device-sdk = { version = "=0.15.1", features = ["message-hub"] }
chrono = { version = "=0.4.45", features = ["serde"] }
clap = { version = "=4.6.7", features = ["derive"] }
env_logger = "=0.11.11"
eyre = "=0.6.14"
log = "=0.4.34"
reqwest = { version = "=0.13.5", default-features = false, features = ["json"] }
serde = { version = "=1.0.229", features = ["derive"] }
tokio = { version = "=1.53.2", features = ["macros", "rt-multi-thread", "signal", "time"] }
tracing = "=0.1.44"
uuid = "=1.27.0"
