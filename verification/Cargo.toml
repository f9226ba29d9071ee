[package]
name = "analytics_gateway"
version = "0.1.0"
edition = "2021"
publish = false

[dependencies]
axum = "*"
itertools = "*"
reqwest = { version = "*", default-features = false, features = ["json"] }
serde = { version = "*", features = ["derive"] }
serde_json = "*"
