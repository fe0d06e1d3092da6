[package]
name = "prompter"
version = "0.1.0"
edition = "2021"
publish = false

[dependencies]
fuzzy-matcher = "=0.3.7"
serde = { version = "=1.0.229", features = ["derive"] }
serde_json = "=1.0.151"
serde_yaml = "=0.9.34"
chrono = { version = "=0.4.45", features = ["serde"] }
dirs = "=7.0.0"
walkdir = "=2.5.0"
uuid = { version = "=1.27.0", features = ["v4"] }
