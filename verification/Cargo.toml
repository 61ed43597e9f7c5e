[package]
name = "gilvave"
version = "0.1.0"
edition = "2021"
publish = false

[dependencies]
decancer = "*"
argon2 = { version = "0.5", features = ["std"] }
sha2 = "0.10"
hex = "0.4"
base64 = "0.22"
image = { version = "0.25", default-features = false, features = ["jpeg", "png", "webp"] }
serde = { version = "1", features = ["derive"] }
serde_json = "1"
uuid = { version = "1", features = ["v4", "v7", "serde"] }
time = { version = "0.3", features = ["serde"] }
axum = { version = "*", features = ["ws"] }
tokio = { version = "1", features = ["full"] }
futures = "0.3"
bytes = "1"
tokio-postgres = { version = "0.7", features = ["with-uuid-1", "with-time-0_3", "with-serde_json-1"] }
deadpool-postgres = "*"
jsonwebtoken = { version = "*", features = ["rust_crypto"] }
tracing = "0.1"
tracing-subscriber = "0.3"
anyhow = "1"
dotenvy = "0.15"
lapin = "*"
fred = "*"
