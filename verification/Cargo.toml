[package]
name = "agent_core"
version = "0.1.0"
edition = "2021"
publish = false

[dependencies]
chrono = "*"
hex = "*"
hmac = "*"
hostname = "*"
reqwest = { version = "*", default-features = false, features = ["json"] }
serde = { version = "*", features = ["derive"] }
serde_json = "*"
sha2 = "*"
sysinfo = "*"
tokio = { version = "*", features = ["rt-multi-thread", "macros", "time", "process", "signal", "sync"] }
toml = "*"
tracing = "*"
tracing-subscriber = { version = "*", features = ["env-filter"] }
uuid = { version = "*", features = ["v4"] }
