[package]
name = "tdi"
version = "0.1.0"
edition = "2021"
publish = false

[dependencies]
anyhow = "=1.0.104"
chrono = { version = "=0.4.45", features = ["serde"] }
clap = { version = "=3.2.25", features = ["derive"] }
cli-table = "=0.4.9"
directories = "=4.0.1"
graph-rs-sdk = "=0.3.1"
http = "=0.2.12"
reqwest = { version = "=0.11.27", features = ["blocking"] }
rustyline = "=10.1.1"
serde = { version = "=1.0.229", features = ["derive"] }
serde_json = "=1.0.154"
tokio = { version = "=1.54.1", features = ["full"] }
warp = "=0.3.7"
webbrowser = "=0.4.0"

[dev-dependencies]
form_urlencoded = "=1.2.2"
