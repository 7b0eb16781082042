[package]
name = "rushomon"
version = "0.1.0"
edition = "2021"
publish = false

[dependencies]
chrono = "*"
hex = "*"
sha2 = "*"
subtle = "*"
url = "*"
urlencoding = "*"
serde = { version = "*", features = ["derive"] }
serde_json = "*"
uuid = { version = "*", features = ["v4"] }
worker = "*"
