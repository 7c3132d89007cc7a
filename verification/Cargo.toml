[package]
name = "sync_msteams_jira_comments"
version = "0.1.0"
edition = "2021"
publish = false

[dependencies]
adf2html = "=1.0.4"
anyhow = "=1.0.104"
axum = "=0.7.9"
axum-server = "=0.8.0"
base64 = "=0.22.1"
chrono = { version = "=0.4.45", features = ["serde"] }
chrono-tz = "=0.10.4"
envconfig = "=0.11.1"
futures = "=0.3.34"
hex = "=0.4.3"
hmac = "=0.12.1"
html2md = "=0.2.17"
html5ever = "=0.39.0"
regex = "=1.13.1"
reqwest = { version = "=0.12.28", default-features = false, features = ["json", "multipart", "rustls-tls"] }
serde = { version = "=1.0.229", features = ["derive"] }
serde_json = "=1.0.154"
sha2 = "=0.10.9"
tokio = { version = "=1.54.1", features = ["full"] }
tower-http = { version = "=0.7.1", features = ["compression-full"] }
tracing = "=0.1.44"
tracing-subscriber = "=0.3.23"
uuid = { version = "=1.29.0", features = ["v4", "serde"] }
validator = "=0.21.0"
