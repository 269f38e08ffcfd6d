[package]
name = "zeroclaw_tools"
version = "0.1.0"
edition = "2021"
publish = false

[dependencies]
serde_json = "*"
regex = "*"
cron = "*"
chrono = "*"
chrono-tz = "*"
tokio = { version = "*", features = ["full"] }
rmcp = { version = "*", features = ["client", "transport-io"] }
reqwest = { version = "*", default-features = false, features = ["json", "rustls-tls"] }
anyhow = "*"
async-trait = "*"
tracing = "*"
urlencoding = "*"
uuid = { version = "*", features = ["v4"] }
serde_yaml = "*"
tempfile = "*"
lifx-core = "*"
a2a-types = "*"
axum = "*"
