[package]
name = "nviwatch"
version = "0.2.0"
edition = "2021"
publish = false

[dependencies]
clap = "4"
crossterm = "*"
influxdb = "*"
nvml-wrapper = "*"
ratatui = "*"
tokio = { version = "1", features = ["rt-multi-thread"] }
