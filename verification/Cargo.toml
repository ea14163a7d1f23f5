[package]
name = "black_rose_auth_api"
version = "0.1.0"
edition = "2021"
publish = false

[dependencies]
rand = "=0.8.8"
axum = "0.7"
tokio = { version = "1", features = ["macros", "rt-multi-thread", "net"] }
sea-orm = { version = "0.12", default-features = false, features = ["sqlx-postgres", "runtime-tokio-rustls", "macros", "with-chrono"] }
serde = { version = "1", features = ["derive"] }
chrono = "0.4"
dotenv = "0.15"
time = "0.3"
tower-sessions = "0.12"
tower-sessions-redis-store = "0.12"
redis = "0.25"
eve_esi = "0.2"
oauth2 = "4"
utoipa = "4"
