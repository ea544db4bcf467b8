[package]
name = "ble_central"
version = "0.1.0"
edition = "2021"
publish = false

[dependencies]
serde_json = "1"
btleplug = "0.11"
tokio = { version = "1", features = ["rt-multi-thread", "macros", "time", "signal"] }
futures = "0.3"
uuid = "1"
log = "0.4"
env_logger = "*"
thiserror = "*"
