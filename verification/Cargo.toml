[package]
name = "rustreplay"
version = "0.1.0"
edition = "2021"
publish = false

[dependencies]
boxcars = "*"
anyhow = "*"
clap = { version = "*", features = ["derive"] }
crossterm = "*"
ratatui = "*"
