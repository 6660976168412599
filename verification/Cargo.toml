[package]
name = "scie-pikesquares"
version = "0.1.0"
edition = "2021"
publish = false

[dependencies]
anyhow = "1"
clap = { version = "4", features = ["derive"] }
logging_timer = "1"
pretty_env_logger = "0.5"
serde = { version = "1", features = ["derive"] }
sha2 = "0.10"
termcolor = "1"
toml = "0.8"
