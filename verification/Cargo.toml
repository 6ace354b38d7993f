[package]
name = "scrap-core"
version = "0.1.0"
edition = "2021"
publish = false

[dependencies]
globset = "0.4"
ignore = "0.4"
serde = { version = "1", features = ["derive"] }
serde_json = "1"
askama = "*"
comfy-table = "7"
thiserror = "2"
