[package]
name = "event_content"
version = "0.1.0"
edition = "2021"
publish = false

[dependencies]
language-tags = { version = "0.3", features = ["serde"] }
serde = { version = "1", features = ["derive"] }
serde_json = "1"
