[package]
name = "aoc_dashboard"
version = "0.1.0"
edition = "2021"
publish = false

[dependencies]
anyhow = "*"
arboard = "*"
clap = { version = "*", features = ["derive"] }
crossterm = "*"
dialoguer = "*"
notify = "*"
ratatui = "*"
