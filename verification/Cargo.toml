[package]
name = "presidium_core"
version = "0.1.0"
edition = "2021"
publish = false

[dependencies]
chrono = "0.4"
uuid = { version = "1", features = ["v4"] }
serde = { version = "1", features = ["derive"] }
figment = { version = "0.10", features = ["toml", "env"] }
tracing-subscriber = { version = "0.3", features = ["env-filter", "json"] }
async-trait = "0.1"
thiserror = "2"

[dev-dependencies]
serde_json = "1"
