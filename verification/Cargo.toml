[package]
name = "laptop_toio"
version = "0.1.0"
edition = "2021"
publish = false

[dependencies]
rosc = "*"
tokio = { version = "*", features = ["full"] }
btleplug = "*"
futures = "*"
clap = { version = "*", features = ["derive"] }
crossterm = "*"
ratatui = "*"
uuid = "*"
