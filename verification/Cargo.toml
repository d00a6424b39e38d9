[package]
name = "backend"
version = "0.1.0"
edition = "2021"
publish = false

[dependencies]
jsonwebtoken = "=9.3.1"
uuid = { version = "=1.29.0", features = ["v4", "serde"] }
chrono = { version = "=0.4.45", features = ["serde"] }
bcrypt = "=0.15.1"
serde = { version = "=1.0.229", features = ["derive"] }
serde_json = "=1.0.154"
axum = { version = "=0.8.9", features = ["multipart"] }
tokio = { version = "=1.54.1", features = ["full"] }
sqlx = { version = "=0.8.6", default-features = false, features = ["runtime-tokio", "postgres", "uuid", "chrono", "json", "macros", "migrate"] }
fred = "=10.1.0"
reqwest = { version = "=0.12.28", default-features = false, features = ["json", "rustls-tls"] }
tower-http = { version = "=0.6.11", features = ["cors", "fs", "limit"] }
tracing = "=0.1.44"
tracing-subscriber = { version = "=0.3.23", features = ["env-filter"] }
dotenvy = "=0.15.7"
futures-util = "=0.3.34"
async-trait = "=0.1.92"
thiserror = "=2.0.21"
image = { version = "=0.25.10", default-features = false, features = ["png", "jpeg"] }
webp = "=0.3.1"
