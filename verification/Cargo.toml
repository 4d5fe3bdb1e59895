[package]
name = "catalog"
version = "0.1.0"
edition = "2021"
publish = false

[dependencies]
async-trait = "=0.1.92"
axum = { version = "=0.8.9", features = ["multipart"] }
bigdecimal = "=0.4.11"
serde = { version = "=1.0.229", features = ["derive"] }
sqlx = { version = "=0.8.6", default-features = false, features = ["postgres", "bigdecimal", "derive", "runtime-tokio"] }
tracing = "=0.1.44"
utoipa = "=5.5.0"
validator = { version = "=0.20.0", features = ["derive"] }
