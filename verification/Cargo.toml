[package]
name = "nexus_engine"
version = "0.1.0"
edition = "2021"
publish = false

[dependencies]
neo4rs = "*"
pubky-app-specs = "*"
serde = { version = "1", features = ["derive"] }
serde_json = "1"
chrono = "0.4"
tokio = { version = "1", features = ["macros", "rt", "time"] }
tracing = "0.1"
async-trait = "0.1"
axum = "*"
utoipa = "*"

[dev-dependencies]
serde_urlencoded = "*"
