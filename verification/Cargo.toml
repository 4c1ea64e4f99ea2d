[package]
name = "ycchat_tui"
version = "0.1.0"
edition = "2021"
publish = false

[dependencies]
crossterm = "*"
prost = "*"
ratatui = "*"
tokio = { version = "*", features = ["rt-multi-thread", "macros"] }
tonic = "*"
