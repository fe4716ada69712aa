[package]
name = "leafshell"
version = "0.1.0"
edition = "2021"
publish = false

[dependencies]
anyhow = "1"
chrono = "0.4"
serde = { version = "1", features = ["derive"] }
serde_json = "1"
mpris = "2"
tokio = { version = "1", features = ["rt"] }
