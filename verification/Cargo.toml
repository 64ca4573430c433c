[package]
name = "practice_app"
version = "0.1.0"
edition = "2021"
publish = false

[dependencies]
rust-argon2 = "1.0"
axum = "0.6"
axum-sessions = "0.5"
chrono = { version = "0.4", features = ["serde"] }
diesel = { version = "2.1", features = ["postgres", "r2d2", "chrono"] }
dotenvy = "0.15"
env_logger = "0.10"
log = "0.4"
rand = "0.8"
reqwest = { version = "0.11", features = ["json"] }
serde = { version = "1", features = ["derive"] }
serde_json = "1"
tokio = { version = "1", features = ["full"] }
tower-http = { version = "0.4", features = ["cors"] }
