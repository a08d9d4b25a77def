[package]
name = "gitui"
version = "0.1.0"
edition = "2021"
publish = false

[dependencies]
anyhow = "1"
crossbeam-channel = "0.5"
crossterm = "0.28"
git2 = { version = "*", default-features = false }
ratatui = "0.29"
