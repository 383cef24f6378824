[package]
name = "identity_service"
version = "0.1.0"
edition = "2021"
publish = false

[dependencies]
bcrypt = "0.15"
jsonwebtoken = "9"
serde_json = "1"
uuid = { version = "1", features = ["v4", "serde"] }
chrono = "0.4"
time = "0.3"
serde = { version = "1", features = ["derive"] }
axum = { version = "0.8", features = ["multipart"] }
axum-extra = { version = "0.10", features = ["cookie"] }
tokio = { version = "1", features = ["macros", "rt-multi-thread", "net", "signal"] }
sea-orm = { version = "1", default-features = false, features = ["sqlx-postgres", "runtime-tokio", "macros", "with-uuid", "with-chrono"] }
dotenv = "0.15"
anyhow = "1"
