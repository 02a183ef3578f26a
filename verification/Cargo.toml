[package]
name = "kafka_dashboard"
version = "0.1.0"
edition = "2021"
publish = false

[dependencies]
kafka = { version = "0.10", default-features = false, features = ["gzip", "snappy"] }
serde = { version = "*", features = ["derive"] }
serde_json = "*"
dirs = "*"
crossterm = "0.25"
tui = { version = "0.19", features = ["crossterm"] }
