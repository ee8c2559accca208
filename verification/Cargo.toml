[package]
name = "hostmon"
version = "0.1.0"
edition = "2021"
publish = false

[dependencies]
actix-web = "4"
actix-cors = "0.7"
serde = { version = "1", features = ["derive"] }
chrono = { version = "0.4", features = ["serde"] }
sysinfo = "0.29"
parking_lot = "0.12"
log = "0.4"
env_logger = "0.10"
procfs = "0.15"
nvml-wrapper = "0.9"
