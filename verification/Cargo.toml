[package]
name = "rtimer"
version = "0.1.0"
edition = "2021"
publish = false

[dependencies]
chrono = "*"
clap = { version = "*", features = ["derive"] }
crossterm = "*"
notify-rust = "*"
ratatui = "*"
serde = { version = "*", features = ["derive"] }
serde_json = "*"
