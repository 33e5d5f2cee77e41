[package]
name = "cozyboot"
version = "0.1.0"
edition = "2021"
publish = false

[dependencies]
toml = { version = "0.8", features = ["preserve_order"] }
dirs = "*"
clap = { version = "*", features = ["derive"] }
tokio = { version = "*", features = ["macros", "rt", "process"] }
colorize = "*"
