[package]
name = "connection_store"
version = "0.1.0"
edition = "2021"
publish = false

[dependencies]
log = "0.4"
rusqlite = "0.32"
serde = { version = "1", features = ["derive"] }
tauri = { version = "2", default-features = false }
