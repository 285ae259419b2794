[package]
name = "vust_desk"
version = "0.1.0"
edition = "2021"
publish = false

[dependencies]
hex = "0.4"
log = "0.4"
scraper = "0.24"
serde = { version = "1", features = ["derive"] }
serde_json = "1"
sha2 = "0.10"
url = "2"
