[package]
name = "gamma_client"
version = "0.1.0"
edition = "2021"
publish = false

[dependencies]
reqwest = { version = "0.12", features = ["json"] }
serde = { version = "1", features = ["derive"] }
tracing = "0.1"
url = "2"

[dev-dependencies]
serde_json = "1"
