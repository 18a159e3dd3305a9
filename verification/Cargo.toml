[package]
name = "unblocker"
version = "0.1.0"
edition = "2021"
publish = false

[dependencies]
walkdir = "*"
clap = "*"
env_logger = "*"
chrono = "*"
log = "*"

[dev-dependencies]
tempfile = "*"
