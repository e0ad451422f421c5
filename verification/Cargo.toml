[package]
name = "aul2madb"
version = "0.1.0"
edition = "2021"
publish = false

[dependencies]
chrono = "0.4"
clap = { version = "4", features = ["derive"] }
csv = "1"
dunce = "1"
macos-unifiedlogs = "0.1"
rusqlite = "0.29"
simplelog = "0.12"
