[package]
name = "repofetch"
version = "0.1.0"
edition = "2021"
publish = false

[dependencies]
unicode-width = "=0.2.2"
humansize = "=2.1.3"
chrono-humanize = "=0.2.3"
chrono = "=0.4.45"
clap = "*"
git2 = "*"
octocrab = "=0.43.0"
tokio = { version = "*", features = ["rt-multi-thread", "macros"] }
futures = "*"
dirs = "*"
serde = { version = "*", features = ["derive"] }
serde_yaml = "*"
anyhow = "*"
