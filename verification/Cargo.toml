[package]
name = "geoffrey"
version = "0.1.0"
edition = "2021"
publish = false

[dependencies]
clap = { version = "3", features = ["derive"] }
console = "*"
env_logger = "*"
log = "*"
ptree = "*"
