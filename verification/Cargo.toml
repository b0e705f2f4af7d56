[package]
name = "oauth_flow"
version = "0.1.0"
edition = "2021"
publish = false

[dependencies]
url = "2"
tiny_http = "0.12"
reqwest = { version = "0.11", default-features = false, features = ["blocking", "json"] }
serde = { version = "1", features = ["derive"] }
serde_json = "1"
