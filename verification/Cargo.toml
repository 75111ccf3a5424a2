[package]
name = "bookmark_store"
version = "0.1.0"
edition = "2021"
publish = false

[dependencies]
rusqlite = "0.24"
serde = { version = "1", features = ["derive"] }
