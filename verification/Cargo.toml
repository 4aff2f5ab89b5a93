[package]
name = "identity_service"
version = "0.1.0"
edition = "2021"
publish = false

[dependencies]
anyhow = "=1.0.104"
axum = "=0.8.9"
bcrypt = "=0.19.3"
chrono = "=0.4.45"
http = "=1.5.0"
jsonwebtoken = { version = "=11.1.0", features = ["rust_crypto"] }
serde = { version = "=1.0.229", features = ["derive"] }
serde_json = "=1.0.151"
thiserror = "=2.0.21"
tokio = { version = "=1.53.2", features = ["rt-multi-thread", "macros", "net"] }
uuid = { version = "=1.27.0", features = ["v4"] }
validator = "=0.21.0"
