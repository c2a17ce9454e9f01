[package]
name = "htmlsanitize"
version = "0.1.0"
edition = "2021"
publish = false

[dependencies]
ammonia = "3"
axum = "0.6"
axum-macros = "0.3"
env_logger = "0.10"
moka = { version = "0.12", features = ["future"] }
pulldown-cmark = "0.9"
serde = { version = "1", features = ["derive"] }
serde_json = "1"
sqlx = { version = "0.7", default-features = false, features = ["runtime-tokio-rustls", "postgres", "json"] }
tokio = { version = "1", features = ["full"] }
tower-http = { version = "0.4", features = ["cors", "catch-panic"] }
ts-rs = "7"
utoipa = "4"
