[package]
name = "sysinspect_ui"
version = "0.1.0"
edition = "2021"
publish = false

[dependencies]
unicode-width = "*"
glob = "*"
ratatui-cheese = "*"
ratatui-glamour = "*"
ratatui = "*"
crossterm = "*"
chrono = "*"
indexmap = "*"
serde_json = "*"
serde_yaml = "*"
tokio = { version = "*", features = ["rt-multi-thread", "macros"] }
log = "*"
