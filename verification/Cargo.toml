[package]
name = "siphon-ai-telemetry"
version = "0.52.0"
edition = "2021"
publish = false

[dependencies]
metrics = "0.24"
thiserror = "1"
tokio = { version = "1", features = ["macros", "rt", "sync", "time"] }
tracing = "0.1"

[dev-dependencies]
metrics-exporter-prometheus = { version = "0.16", default-features = false }
