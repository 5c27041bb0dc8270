[package]
name = "ml_feed"
version = "0.1.0"
edition = "2021"
publish = false

[dependencies]
anyhow = "1"
axum = "0.8"
candid = "0.10"
chrono = "0.4"
http = "1"
ic-agent = "*"
log = "0.4"
prost = "0.13"
rand = "0.9"
reqwest = { version = "0.12", features = ["json"] }
serde = { version = "1", features = ["derive"] }
tokio = { version = "1", features = ["full"] }
tonic = { version = "0.13", features = ["tls-ring", "tls-webpki-roots"] }
tracing = "0.1"
utoipa = "5"
utoipa-axum = "0.2"
