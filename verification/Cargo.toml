[package]
name = "iidm"
version = "0.1.0"
edition = "2021"
publish = false

[dependencies]
serde_json = "1"
jsonschema = { version = "*", default-features = false }
chrono = { version = "0.4", features = ["serde"] }
bevy_ecs = { version = "0.15", default-features = false }
serde = { version = "1", features = ["derive"] }
schemars = { version = "0.8", features = ["chrono"] }
thiserror = "1"
axum = { version = "0.7", features = ["multipart"] }
tokio = { version = "1", features = ["full"] }
tower-http = { version = "0.6", features = ["fs", "trace"] }
tracing = "0.1"
tracing-subscriber = { version = "0.3", features = ["env-filter"] }
askama = "0.12"
