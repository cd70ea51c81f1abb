[package]
name = "rust_newsletter"
version = "0.1.0"
edition = "2021"
publish = false

[dependencies]
argon2 = "0.5"
chrono = "0.4"
hmac = "0.12"
rand = "0.8"
sha2 = "0.10"
unicode-segmentation = "1"
urlencoding = "2"
uuid = { version = "1", features = ["v4"] }
