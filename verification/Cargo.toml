[package]
name = "goal_agent"
version = "0.1.0"
edition = "2021"
publish = false

[dependencies]
base64 = "=0.21.7"
chrono = "=0.4.45"
serde = { version = "=1.0.229", features = ["derive"] }
tokio = { version = "=1.53.2", features = ["full"] }
axum = "=0.6.20"
async-trait = "=0.1.92"
anyhow = "=1.0.104"
hyper = { version = "=0.14.32", features = ["client", "http1", "http2", "tcp"] }
hyper-rustls = "=0.24.2"
mime = "=0.3.17"
google-gmail1 = "=5.0.5"
google-calendar3 = "=5.0.5"
async-openai = { version = "=0.42.1", features = ["chat-completion"] }
