[package]
name = "clean_api"
version = "0.1.0"
edition = "2021"
publish = false

[dependencies]
anyhow = "=1.0.104"
async-trait = "=0.1.92"
axum = "=0.8.9"
chrono = { version = "=0.4.45", features = ["serde"] }
serde = { version = "=1.0.229", features = ["derive"] }
serde_json = "=1.0.154"
sqlx = { version = "=0.8.6", default-features = false, features = ["mysql", "runtime-tokio", "chrono", "json", "macros"] }
utoipa = { version = "=5.5.0", features = ["chrono"] }
validator = { version = "=0.21.0", features = ["derive"] }
