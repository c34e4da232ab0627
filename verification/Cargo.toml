[package]
name = "groqddbot"
version = "0.1.0"
edition = "2021"
publish = false

[dependencies]
anyhow = "*"
chrono = "*"
clap = { version = "*", features = ["derive"] }
config = "*"
dashmap = "*"
genai = "*"
log = "*"
serde = { version = "*", features = ["derive"] }
simplelog = "*"
thiserror = "*"
tokio = { version = "*", features = ["rt-multi-thread", "macros", "time", "sync"] }
