[package]
name = "solar_modbus"
version = "0.1.0"
edition = "2021"
publish = false

[dependencies]
tokio = { version = "1", features = ["full"] }
tokio-modbus = "0.16"
tokio-retry = "0.3"
tokio-stream = { version = "0.1", features = ["sync", "time"] }
futures = "0.3"
anyhow = "1"
chrono = { version = "0.4", features = ["serde"] }
serde = { version = "1", features = ["derive"] }
axum = { version = "0.6", features = ["headers", "macros"] }
tracing = "0.1"
edgedb-tokio = "0.5"
edgedb-protocol = "0.6"
edgedb-derive = "0.5"
