[package]
name = "polar_tracker"
version = "0.1.0"
edition = "2021"
publish = false

[dependencies]
chrono = "=0.4.45"
arctic = "=1.0.0"
tokio = { version = "=1.53.2", features = ["fs", "io-util", "macros", "rt-multi-thread", "sync"] }
serde = { version = "=1.0.229", features = ["derive"] }
serde_json = "*"
thiserror = "=2.0.21"
