[package]
name = "chrona"
version = "0.1.0"
edition = "2021"
publish = false

[dependencies]
rand = "*"
rusqlite = { version = "*", features = ["bundled"] }
arrow = "*"
parquet = "*"
anyhow = "*"
