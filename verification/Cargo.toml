[package]
name = "pipeweaver_midi"
version = "0.1.0"
edition = "2021"
publish = false

[dependencies]
midi-msg = "*"
midir = "*"
serde = { version = "1", features = ["derive"] }
serde_json = "1"
serde_with = "3"
ulid = { version = "1", features = ["serde"] }
anyhow = "1"
clap = { version = "4", features = ["derive"] }
tokio = { version = "1", features = ["full"] }
log = "0.4"
futures = "0.3"
