[package]
name = "cvss_rs"
version = "0.1.0"
edition = "2021"
publish = false

[dependencies]
serde = { version = "1", features = ["derive"] }
strum = { version = "0.27", features = ["derive"] }

[dev-dependencies]
serde_json = "1"
