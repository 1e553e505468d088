[package]
name = "editor"
version = "0.1.0"
edition = "2021"
publish = false

[dependencies]
color-eyre = "0.6"
compact_str = "0.8"
crossterm = "0.28"
ratatui = "0.29"
tracing = "0.1"
tracing-subscriber = { version = "0.3", features = ["env-filter"] }
