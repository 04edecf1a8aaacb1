[package]
name = "infinitrak"
version = "0.1.0"
edition = "2021"
publish = false

[dependencies]
cpal = "*"
crossterm = "*"
hound = "*"
infinitedsp-core = "*"
ratatui = "*"
serde = { version = "*", features = ["derive"] }
serde_json = "*"
