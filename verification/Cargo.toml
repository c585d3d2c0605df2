[package]
name = "freya"
version = "0.1.0"
edition = "2021"
publish = false

[dependencies]
zstd = "=0.14.0"
crossterm = "=0.29.0"
ratatui = "=0.30.2"
rfd = { version = "=0.17.2", default-features = false, features = ["xdg-portal"] }
