[package]
name = "etymon"
version = "0.1.0"
edition = "2021"
publish = false

[dependencies]
kuchikiki = "*"
anyhow = "*"
crossterm = "*"
ratatui = "*"
headless_chrome = "*"
serde = { version = "*", features = ["derive"] }
