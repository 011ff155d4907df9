[package]
name = "openai"
version = "1.0.0"
edition = "2021"
publish = false

[dependencies]
serde_json = "=1.0.151"
serde = { version = "=1.0.229", features = ["derive"] }
reqwest = { version = "=0.12.28", features = ["json", "multipart", "stream"] }
reqwest-eventsource = "=0.6.0"
tokio = { version = "=1.53.2", features = ["rt", "rt-multi-thread", "sync", "macros"] }
futures-util = "=0.3.34"
log = "=0.4.34"
anyhow = "=1.0.104"
