[package]
name = "gitsu"
version = "0.1.0"
edition = "2021"
publish = false

[dependencies]
rusqlite = "*"
clap = { version = "4", features = ["derive"] }
anyhow = "1"
dirs = "*"
