[package]
name = "download-from-server"
version = "0.1.0"
edition = "2021"
publish = false

[dependencies]
anyhow = "1"
chrono = "0.4"
clap = { version = "4", features = ["derive"] }
console = "0.15"
dialoguer = "0.11"
dirs = "5"
serde = { version = "1", features = ["derive"] }
serde_json = "1"
ssh2 = "0.9"
thiserror = "1"
tokio = { version = "1", features = ["macros", "rt-multi-thread"] }
