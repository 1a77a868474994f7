[package]
name = "vda5050_types"
version = "0.1.0"
edition = "2021"
publish = false

[dependencies]
serde = { version = "*", features = ["derive"] }
serde_json = "*"
serde_with = "*"
chrono = { version = "*", features = ["serde"] }
