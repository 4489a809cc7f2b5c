[package]
name = "slack_migrator"
version = "0.1.0"
edition = "2021"
publish = false

[dependencies]
anyhow = "1"
chrono = { version = "0.4", features = ["serde"] }
clap = { version = "4", features = ["derive"] }
serde = { version = "1", features = ["derive"] }
serde_json = "1"
serde_with = { version = "3", features = ["chrono_0_4"] }
serenity = "0.12"
tokio = { version = "1", features = ["fs", "macros", "rt-multi-thread"] }
url = { version = "2", features = ["serde"] }
