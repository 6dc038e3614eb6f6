[package]
name = "blog_engine"
version = "0.1.0"
edition = "2021"
publish = false

[dependencies]
jsonwebtoken = { version = "=11.1.0", features = ["rust_crypto"] }
chrono = "=0.4.45"
comrak = "=0.55.0"
uuid = { version = "=1.27.0", features = ["v4"] }
argon2 = "=0.6.0"
serde = { version = "=1.0.229", features = ["derive"] }
serde_json = "=1.0.151"
sqlx = { version = "=0.9.0", features = ["sqlite", "runtime-tokio"], default-features = false }
axum = { version = "=0.8.9", features = ["multipart"] }
axum-extra = { version = "=0.12.6", features = ["typed-header"] }
tokio = { version = "=1.53.2", features = ["rt-multi-thread", "macros", "signal", "net"] }
tower-http = { version = "=0.7.1", features = ["fs"] }
anyhow = "=1.0.104"
thiserror = "=2.0.21"
dotenvy = "=0.15.7"
rand = "=0.10.3"
tracing = "=0.1.44"
tracing-subscriber = { version = "=0.3.23", features = ["env-filter"] }
