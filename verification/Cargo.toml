[package]
name = "shenyu_client_rust"
version = "0.1.0"
edition = "2021"
publish = false

[dependencies]
dashmap = "*"
serde_json = "1"
serde = { version = "1", features = ["derive"] }
serde_yaml = "0.9"
ureq = { version = "2", default-features = false, features = ["json"] }
local-ip-address = "*"
axum = "*"
tower-service = "*"
tokio = { version = "1", features = ["rt-multi-thread", "signal", "macros"] }
tracing = "0.1"
actix-web = { version = "4", default-features = false }
