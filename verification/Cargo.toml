[package]
name = "event_listener"
version = "0.1.0"
edition = "2021"
publish = false

[dependencies]
serde_json = "1"
serde = { version = "1", features = ["derive"] }
serde_yaml = "0.9"
clap = "2"
kafka = { version = "*", default-features = false }
