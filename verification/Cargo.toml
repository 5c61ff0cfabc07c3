[package]
name = "chat_agent"
version = "0.1.0"
edition = "2021"
publish = false

[dependencies]
anyhow = "1"
async-trait = "0.1"
axum = "0.7"
clap = { version = "4", features = ["derive"] }
daemonize = "0.5"
futures = "0.3"
portpicker = "0.1"
rand = "0.8"
reqwest = { version = "0.12", default-features = false, features = ["json"] }
rumqttc = "0.24"
serde = { version = "1", features = ["derive"] }
serde_json = "1"
serde_yaml = "0.9"
tokio = { version = "1", features = ["full"] }
tracing = "0.1"
tracing-subscriber = "0.3"
users = "0.11"
