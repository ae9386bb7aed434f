[package]
name = "start_page"
version = "0.1.0"
edition = "2021"
publish = false

[dependencies]
anyhow = "1"
axum = "*"
brotli = "*"
clap = { version = "4", features = ["derive"] }
crossterm = "*"
directories = "*"
ratatui = "*"
rust-embed = "*"
serde = { version = "1", features = ["derive"] }
serde_json = "1"
serde_yaml = "*"
tempfile = "3"
thiserror = "*"
tokio = { version = "1", features = ["rt-multi-thread", "net"] }
tower-http = { version = "*", features = ["fs"] }
