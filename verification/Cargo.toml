[package]
name = "type_metadata"
version = "0.1.0"
edition = "2021"
publish = false

[dependencies]
derive_more = { version = "*", features = ["from"] }
serde = { version = "1", features = ["derive"] }
serde_json = "1"
