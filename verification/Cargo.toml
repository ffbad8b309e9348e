[package]
name = "media_optimizer"
version = "0.1.0"
edition = "2021"
publish = false

[dependencies]
sha2 = "*"
hex = "*"
anyhow = "*"
serde = { version = "*", features = ["derive"] }
serde_json = "*"
tokio = { version = "*", features = ["rt-multi-thread", "macros", "fs", "process", "sync", "time"] }
clap = { version = "*", features = ["derive"] }
walkdir = "*"
dirs = "*"
indicatif = "*"
tracing = "*"
tracing-subscriber = "*"
tempfile = "*"
