[package]
name = "register_spf_api"
version = "0.1.0"
edition = "2021"
publish = false

[dependencies]
rustrict = "=0.7.39"
unicode-segmentation = "=1.13.3"
dashmap = "=6.2.1"
rand = "=0.10.3"
argon2 = "=0.6.0"
password-hash = "=0.6.1"
mailchecker = "=6.0.21"
spf = "=0.9.1"
chrono = "=0.4.45"
serde = { version = "=1.0.229", features = ["derive"] }
serde_json = "=1.0.154"
axum = { version = "=0.8.9", features = ["multipart"] }
tokio = { version = "=1.54.1", features = ["full"] }
tower = "=0.5.3"
tower-http = { version = "=0.7.1", features = ["cors"] }
anyhow = "=1.0.104"
dotenvy = "=0.15.7"
tracing-subscriber = "=0.3.23"
minima-r2-sdk = "=0.1.0"
