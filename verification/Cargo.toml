[package]
name = "cortev_session"
version = "0.1.0"
edition = "2021"
publish = false

[dependencies]
rand = "0.8"
serde_json = "1"
anyhow = "1"
thiserror = "1"
axum = "*"
axum-core = "*"
tower-layer = "0.3"
tower-service = "0.3"
