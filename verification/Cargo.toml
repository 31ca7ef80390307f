[package]
name = "zero2prod"
version = "0.1.0"
edition = "2021"
publish = false

[dependencies]
unicode-segmentation = "1"
validator = "0.20"
argon2 = { version = "0.5", features = ["std"] }
base64 = "0.22"
uuid = { version = "1", features = ["v4"] }
chrono = "0.4"
