[package]
name = "did_messaging"
version = "0.1.0"
edition = "2021"
publish = false

[dependencies]
multibase = "0.9"
serde = { version = "1", features = ["derive"] }
serde_json = "1"
axum = "0.6"
tokio = { version = "1", features = ["macros", "rt-multi-thread"] }
reqwest = { version = "0.11", default-features = false }
anyhow = "1"
thiserror = "1"
