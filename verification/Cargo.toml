[package]
name = "savvy"
version = "0.1.0"
edition = "2021"
publish = false

[dependencies]
syn = { version = "=2.0.119", features = ["full", "extra-traits"] }
quote = "=1.0.47"
clap = { version = "=4.6.7", features = ["derive"] }
thiserror = "=1.0.69"
env_logger = { version = "=0.11.11", default-features = false }
