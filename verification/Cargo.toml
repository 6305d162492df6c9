[package]
name = "simple_auth"
version = "0.1.0"
edition = "2021"
publish = false

[dependencies]
actix-web = { version = "4", default-features = false }
axum = "=0.6.20"
base64 = "=0.22.1"
chrono = "=0.4.45"
config = "=0.13.4"
deadpool-postgres = { version = "=0.14.2", features = ["serde"] }
derive_more = { version = "=2.1.1", features = ["display", "from"] }
dotenv = "=0.15.0"
hmac = "=0.12.1"
jsonwebtoken = "=9.3.1"
serde = { version = "=1.0.229", features = ["derive"] }
serde_json = "=1.0.154"
sha2 = "=0.10.9"
tokio = { version = "=1.54.1", features = ["macros", "rt-multi-thread"] }
tokio-pg-mapper = "=0.2.0"
tokio-pg-mapper-derive = "=0.2.0"
tokio-postgres = "=0.7.18"
uuid = { version = "=1.29.0", features = ["v4"] }
