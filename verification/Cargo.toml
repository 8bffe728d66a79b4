[package]
name = "onedrive_api"
version = "0.1.0"
edition = "2021"
publish = false

[dependencies]
url = "2"
http = "0.2"
reqwest = { version = "0.11", default-features = false, features = ["json"] }
serde = { version = "1", features = ["derive"] }
serde_json = "1"
