[package]
name = "sqlite_viewer"
version = "0.1.0"
edition = "2021"
publish = false

[dependencies]
anyhow = "1"
rusqlite = { version = "*", features = ["bundled"] }

[dev-dependencies]
tempfile = "3"
