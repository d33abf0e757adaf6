[package]
name = "favsync"
version = "0.1.0"
edition = "2021"
publish = false

[dependencies]
clap = { version = "3.2", features = ["derive"] }
egg-mode = "0.16"
futures = "0.3"
serde_json = "1"
tokio = { version = "1", features = ["rt-multi-thread"] }
