[package]
name = "nactl"
version = "0.1.0"
edition = "2021"
publish = false

[dependencies]
anyhow = "=1.0.104"
clap = { version = "=4.6.7", features = ["derive"] }
dirs = "=7.0.0"
reqwest = { version = "=0.13.5", default-features = false, features = ["form", "query"] }
rmcp = "=3.8.0"
serde = { version = "=1.0.229", features = ["derive"] }
serde_json = "=1.0.154"
serde_yml = "=0.0.13"
tempfile = "=3.27.0"
tokio = { version = "=1.54.1", features = ["full"] }
