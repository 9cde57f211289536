[package]
name = "chesstui"
version = "0.1.0"
edition = "2021"
publish = false

[dependencies]
cozy-chess = "0.3"
rand = "0.8"
ratatui = "0.29"
crossterm = "0.28"
serde = { version = "1", features = ["derive"] }
serde_json = "1"
toml = "0.8"
clap = { version = "4", features = ["derive", "env"] }
chrono = "0.4"
uuid = { version = "1", features = ["v4"] }
tokio = { version = "1", features = ["full"] }
axum = { version = "0.8", features = ["ws"] }
argon2 = "0.5"
base64 = "0.22"
dashmap = "6"
futures-util = "0.3"
tokio-tungstenite = "0.26"
tracing = "0.1"
tracing-subscriber = "0.3"
image = { version = "0.25", default-features = false, features = ["png"] }
