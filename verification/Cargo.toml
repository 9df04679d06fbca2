[package]
name = "mpd_client"
version = "0.1.0"
edition = "2021"
publish = false

[dependencies]
color-eyre = "*"
crossterm = { version = "*", features = ["event-stream"] }
eyre = "*"
ratatui = "*"
tokio = { version = "*", features = ["io-util", "macros", "net", "rt-multi-thread", "time"] }
tokio-stream = "*"
