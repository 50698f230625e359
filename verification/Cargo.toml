[package]
name = "lacis_proxy"
version = "0.1.0"
edition = "2021"
publish = false

[dependencies]
base64 = "=0.22.1"
bcrypt = "=0.15.1"
url = "=2.5.8"
ipnetwork = "=0.20.0"
serde = { version = "=1.0.229", features = ["derive"] }
serde_json = "=1.0.154"
jsonwebtoken = "=9.3.1"
chrono = "=0.4.45"
axum = "=0.7.9"
tokio = { version = "=1.54.1", features = ["full"] }
config = "=0.14.1"
tower = "=0.5.3"
tower-http = { version = "0.6", features = ["cors", "trace"] }
tracing = "=0.1.44"
tracing-subscriber = { version = "0.3", features = ["env-filter"] }
