[package]
name = "restty"
version = "0.1.0"
edition = "2021"
publish = false

[dependencies]
chrono = { version = "0.4", features = ["serde"] }
reqwest = { version = "0.12", default-features = false, features = ["blocking", "default-tls", "json"] }
serde = { version = "1", features = ["derive"] }
serde_json = "1"
