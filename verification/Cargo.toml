[package]
name = "tl"
version = "0.1.0"
edition = "2021"
publish = false

[dependencies]
chrono = "*"
zip = "*"
flate2 = "*"
urlencoding = "*"
clap = { version = "*", features = ["derive"] }
regex = "*"
serde = { version = "*", features = ["derive"] }
serde_json = "*"
csv = "*"
