[package]
name = "nitro"
version = "0.1.0"
edition = "2021"
publish = false

[dependencies]
serde = { version = "=1.0.229", features = ["derive"] }
serde_json = "=1.0.154"
tokio = { version = "=1.54.1", features = ["full"] }
reqwest = { version = "=0.12.28", default-features = false, features = ["json", "stream", "rustls-tls"] }
futures = "=0.3.34"
async-stream = "=0.3.6"
async-trait = "=0.1.92"
crossterm = "=0.28.1"
ratatui = "=0.29.0"
dirs = "=5.0.1"
thiserror = "=1.0.69"
