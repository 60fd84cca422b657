[package]
name = "rswa_cli"
version = "0.1.0"
edition = "2021"
publish = false

[dependencies]
josekit = "*"
serde_json = "*"
clap = { version = "*", features = ["derive"] }
