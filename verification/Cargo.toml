[package]
name = "httptui"
version = "0.1.0"
edition = "2021"
publish = false

[dependencies]
crossterm = "0.28"
ratatui = "0.29"
tui-textarea = "0.7"
reqwest = { version = "0.12", default-features = false, features = ["blocking"] }
