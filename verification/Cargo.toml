[package]
name = "stackhand"
version = "0.1.0"
edition = "2021"
publish = false

[dependencies]
anyhow = "1"
arboard = { version = "3", default-features = false }
crossbeam-channel = "0.5"
crossterm = "0.29"
libc = "0.2"
ratatui = "0.30"
serde = { version = "1", features = ["derive"] }
serde_yaml = "0.9"
unicode-width = "0.2"
