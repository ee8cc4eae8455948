[package]
name = "agent-browser"
version = "0.1.0"
edition = "2021"
publish = false

[dependencies]
anyhow = "1"
rmcp = { version = "*", features = ["server", "macros", "transport-io"] }
schemars = "1"
serde = { version = "1", features = ["derive"] }
serde_json = "1"
tokio = { version = "1", features = ["fs", "macros", "rt-multi-thread", "sync"] }
tracing = "0.1"
tracing-subscriber = { version = "0.3", features = ["env-filter"] }
