[package]
name = "auth_core"
version = "0.1.0"
edition = "2021"
publish = false

[dependencies]
jsonwebtoken = "8"
serde = { version = "1", features = ["derive"] }
serde_json = "1"
validator = "0.16"
axum = "0.6"
tokio = { version = "1", features = ["rt-multi-thread", "macros", "net"] }
tokio-postgres = "0.7"
dotenv = "0.15"
mailgun-rs = "*"
async-trait = "0.1"
futures = "0.3"
tower-http = { version = "0.4", features = ["cors"] }
