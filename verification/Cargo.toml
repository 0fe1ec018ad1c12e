[package]
name = "sf_auth_core"
version = "0.1.0"
edition = "2021"
publish = false

[dependencies]
oauth2 = { version = "4", default-features = false }
axum = "0.6"
tokio = { version = "1", features = ["full"] }
reqwest = { version = "0.11", default-features = false }
open = "5"
serde = { version = "1", features = ["derive"] }
serde_json = "1"
