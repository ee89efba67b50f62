[package]
name = "realtime_svg"
version = "0.1.0"
edition = "2021"
publish = false

[dependencies]
tera = { version = "1", default-features = false }
humantime = "2"
argon2 = "0.5"
chrono = { version = "0.4", features = ["serde"] }
base64 = "0.22"
http = "1"
serde = { version = "1", features = ["derive"] }
serde_json = "1"
axum = "0.8"
tokio = { version = "1", features = ["full"] }
tokio-stream = { version = "0.1", features = ["sync"] }
bytes = "1"
redis = { version = "*", features = ["tokio-comp"] }
jsonwebtoken = "9"
rsa = "0.9"
rand = "0.8"
tower-http = { version = "0.6", features = ["cors", "trace"] }
tracing = "0.1"
tracing-subscriber = { version = "0.3", features = ["env-filter"] }
clap = { version = "4", features = ["derive", "env"] }
figment = { version = "0.10", features = ["yaml", "env"] }
dotenvy = "0.15"
anyhow = "1"
