[package]
name = "logger"
version = "0.1.0"
edition = "2021"
publish = false

[dependencies]
log = { version = "=0.4.34", features = ["std"] }
chrono = "=0.4.45"
anyhow = "=1.0.104"
thiserror = "=1.0.69"
winit = "=0.28.7"
