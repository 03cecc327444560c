[package]
name = "bunori_extensions"
version = "0.1.0"
edition = "2021"
publish = false

[dependencies]
scraper = "*"
regex = "*"
serde = { version = "1", features = ["derive"] }
serde_json = "1"
