[package]
name = "combat_core"
version = "0.1.0"
edition = "2021"
publish = false

[dependencies]
rand = "0.8"
anyhow = "*"
crossterm = "*"
ratatui = "*"
tokio = { version = "*", features = ["macros", "rt-multi-thread"] }
