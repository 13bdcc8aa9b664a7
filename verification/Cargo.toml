[package]
name = "solai_coder"
version = "0.1.0"
edition = "2021"
publish = false

[dependencies]
url = "2"
chrono = { version = "0.4", features = ["serde"] }
serde = { version = "1", features = ["derive"] }
serde_json = "1"
clap = { version = "4", features = ["derive"] }
anyhow = "1"
dirs = "6"
tokio = { version = "1", features = ["rt-multi-thread", "macros", "process", "fs", "time"] }
reqwest = { version = "0.12", default-features = false, features = ["json"] }
ratatui = { version = "0.29", default-features = false }
unicode-width = "0.2"
