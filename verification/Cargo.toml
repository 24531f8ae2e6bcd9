[package]
name = "tiermask"
version = "0.1.0"
edition = "2021"
publish = false

[dependencies]
regex = "*"
chrono = "*"
urlencoding = "*"
anyhow = "*"
aws-config = "*"
aws-sdk-s3 = "*"
tokio = { version = "*", features = ["macros", "rt-multi-thread"] }
crossterm = "*"
ratatui = "*"
