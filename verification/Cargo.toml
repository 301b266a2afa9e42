[package]
name = "account_core"
version = "0.1.0"
edition = "2021"
publish = false

[dependencies]
argon2 = "=0.6.0"
jsonwebtoken = { version = "=11.1.0", features = ["rust_crypto"] }
uuid = { version = "=1.27.0", features = ["v4"] }
chrono = "=0.4.45"
serde = { version = "=1.0.229", features = ["derive"] }
serde_json = "=1.0.151"
libsql = "=0.9.30"
axum = "=0.8.9"
tokio = { version = "=1.53.2", features = ["rt-multi-thread", "macros", "net", "sync"] }
dotenv = "=0.15.0"
tracing = "=0.1.44"
tracing-subscriber = "=0.3.23"
