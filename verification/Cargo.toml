[package]
name = "money_insight"
version = "0.1.0"
edition = "2021"
publish = false

[dependencies]
argon2 = "0.5"
axum = "0.8"
base64 = "0.22"
chacha20poly1305 = "0.10"
chrono = "0.4"
dotenvy = "0.15"
futures-util = "0.3"
hex = "0.4"
jsonwebtoken = "9"
machine-uid = "0.5"
mime_guess = "2"
rand = "0.8"
rusqlite = { version = "0.32", features = ["bundled"] }
rust-embed = "8"
serde = { version = "1", features = ["derive"] }
serde_json = "1"
sha2 = "0.10"
tokio = { version = "1", features = ["full"] }
tower-http = { version = "0.6", features = ["cors"] }
uuid = { version = "1", features = ["v4"] }
