[package]
name = "r_auth_api"
version = "0.1.0"
edition = "2021"
publish = false

[dependencies]
rust-argon2 = "2"
jsonwebtoken = "9"
serde = { version = "1", features = ["derive"] }
serde_json = "1"
rand = "0.9"
validator = "0.20"
chrono = "0.4"
axum = "0.8"
tokio = { version = "1", features = ["rt-multi-thread", "macros", "net"] }
