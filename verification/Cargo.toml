[package]
name = "urban_region"
version = "0.1.0"
edition = "2021"
publish = false

[dependencies]
urlencoding = "*"
reqwest = { version = "*", default-features = false, features = ["blocking", "json"] }
serde = { version = "*", features = ["derive"] }
serde_json = "*"
