[package]
name = "openai_wire"
version = "0.1.0"
edition = "2021"
publish = false

[dependencies]
serde_json = "*"
chrono = "*"
serde = { version = "*", features = ["derive"] }
anyhow = "*"
reqwest = { version = "*", default-features = false, features = ["json"] }
