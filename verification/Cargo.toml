[package]
name = "quests_tracker"
version = "0.1.0"
edition = "2021"
publish = false

[dependencies]
anyhow = "1"
argon2 = { version = "=0.5.3", features = ["std"] }
axum = "0.7"
axum-extra = { version = "0.9", features = ["cookie"] }
chrono = { version = "=0.4.45", features = ["serde"] }
cookie = "0.18"
diesel = { version = "2", features = ["postgres", "r2d2", "chrono"] }
dotenvy = "0.15"
jsonwebtoken = "9"
serde = { version = "1", features = ["derive"] }
tokio = { version = "1", features = ["full"] }
tower-http = { version = "0.5", features = ["cors", "limit", "timeout", "trace"] }
tracing = "0.1"
tracing-subscriber = "0.3"
