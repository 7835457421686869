[package]
name = "browser_history"
version = "0.1.0"
edition = "2021"
publish = false

[dependencies]
anyhow = "1"
chrono = "0.4"
csv = "1"
rusqlite = { version = "*", features = ["bundled"] }
walkdir = "2"
