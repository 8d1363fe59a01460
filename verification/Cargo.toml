[package]
name = "smart_persona"
version = "0.1.0"
edition = "2021"
publish = false

[dependencies]
hmac = "*"
sha2 = "*"
bcrypt = "*"
axum = { version = "*", features = ["json", "tokio", "http1"] }
tokio = { version = "*", features = ["full"] }
serde = { version = "*", features = ["derive"] }
chrono = "*"
uuid = { version = "*", features = ["v4"] }
anyhow = "*"
dotenvy = "*"
