[package]
name = "lazyhf"
version = "0.1.0"
edition = "2021"
publish = false

[dependencies]
anyhow = "*"
clap = "*"
crossterm = "*"
dirs = "*"
log = "*"
ratatui = "*"
ron = "*"
scopeguard = "*"
serde = { version = "*", features = ["derive"] }
