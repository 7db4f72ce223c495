[package]
name = "feather_frontend"
version = "0.1.0"
edition = "2021"
publish = false

[dependencies]
tokio = { version = "1", features = ["rt-multi-thread", "macros", "sync", "time"] }
crossterm = "0.28"
ratatui = "0.29"
tui-textarea = "0.7"
