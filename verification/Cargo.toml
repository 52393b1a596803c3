[package]
name = "branch_browser"
version = "0.1.0"
edition = "2021"
publish = false

[dependencies]
color-eyre = "0.6"
crossterm = "*"
git2 = { version = "*", default-features = false }
ratatui = "*"
