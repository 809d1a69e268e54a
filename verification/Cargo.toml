[package]
name = "voice-agent-server"
version = "0.1.0"
edition = "2021"
publish = false

[dependencies]
unicode-normalization = "=0.1.26"
serde_json = "=1.0.154"
sha2 = "=0.10.9"
serde = { version = "=1.0.229", features = ["derive"] }
toml = "=0.8.23"
url = "=2.5.8"
opus2 = "=0.4.0"
tokio = { version = "=1.54.1", features = ["rt-multi-thread", "macros", "net", "time", "sync", "signal"] }
axum = { version = "=0.8.9", features = ["ws"] }
futures-util = { version = "=0.3.34", features = ["sink"] }
tracing = "=0.1.44"
tracing-subscriber = { version = "=0.3.23", features = ["env-filter"] }
uuid = { version = "=1.29.0", features = ["v4"] }
hound = "=3.5.1"
anyhow = "=1.0.104"
reqwest = { version = "=0.12.28", default-features = false, features = ["blocking", "rustls-tls"] }
llm = { version = "*", default-features = false, features = ["openai"] }
