[package]
name = "git-cheatsheet"
version = "0.2.0"
edition = "2021"
publish = false

[dependencies]
ratatui = "0.29"
crossterm = "0.28"
