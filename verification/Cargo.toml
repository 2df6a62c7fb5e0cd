[package]
name = "snake_rat"
version = "0.1.0"
edition = "2021"
publish = false

[dependencies]
rand = "=0.9.5"
ratatui = "=0.29.0"
color-eyre = "*"
