[package]
name = "btui"
version = "0.1.0"
edition = "2021"
publish = false

[dependencies]
anyhow = "*"
bluer = { version = "*", features = ["bluetoothd"] }
crossterm = "*"
ratatui = "*"
tokio = { version = "*", features = ["macros", "rt-multi-thread"] }
