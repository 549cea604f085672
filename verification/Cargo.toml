[package]
name = "zlorbrs"
version = "0.1.0"
edition = "2021"
publish = false

[dependencies]
clap = { version = "*", features = ["derive"] }
env_logger = "*"
git2 = "*"
log = "*"
serde = { version = "*", features = ["derive"] }
serde_json = "*"
