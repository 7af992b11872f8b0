[package]
name = "aws_login"
version = "0.1.0"
edition = "2021"
publish = false

[dependencies]
home = "*"
tokio = { version = "1", features = ["process", "rt", "io-util", "macros"] }
clap = { version = "*", features = ["derive"] }
