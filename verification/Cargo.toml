[package]
name = "mltop"
version = "0.1.0"
edition = "2021"
publish = false

[dependencies]
crossterm = "=0.28.1"
nvml-wrapper = "=0.10.0"
ratatui = { version = "=0.29.0", features = ["serde"] }
serde = { version = "=1.0.229", features = ["derive"] }
sysinfo = "=0.30.13"
toml = "=0.8.23"
