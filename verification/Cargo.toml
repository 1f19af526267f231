[package]
name = "alfred"
version = "0.1.0"
edition = "2021"
publish = false

[dependencies]
crossterm = "0.25"
git2 = { version = "*", default-features = false }
tui = "0.19"
