[package]
name = "archiver_config"
version = "0.1.0"
edition = "2021"
publish = false

[dependencies]
anyhow = "1"
humantime = "2"
humantime-serde = "1"
regex = "1"
serde = { version = "1", features = ["derive"] }
serde_regex = "1"
tokio = { version = "1", features = ["fs"] }
toml = "0.5"
ts-rs = "*"
