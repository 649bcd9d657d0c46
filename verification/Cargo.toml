[package]
name = "sqlite_codecs"
version = "0.1.0"
edition = "2021"
publish = false

[dependencies]
brotli = "*"
miniz_oxide = "*"
rusqlite = { version = "*", features = ["functions", "bundled"] }
