[package]
name = "supervisor"
version = "0.1.0"
edition = "2021"
publish = false

[dependencies]
anyhow = "1"
async-shutdown = "*"
chrono = { version = "0.4", features = ["serde"] }
chrono-tz = "*"
clap = { version = "4", features = ["derive"] }
cron = "*"
dotenvy = "*"
nix = { version = "*", features = ["signal"] }
serde = { version = "1", features = ["derive"] }
serde_json = "1"
serde_with = "*"
serde_yaml = "0.9"
strum = { version = "*", features = ["derive"] }
tokio = { version = "1", features = ["full"] }
