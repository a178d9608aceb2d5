[package]
name = "sinan_backend"
version = "0.1.0"
edition = "2021"
publish = false

[dependencies]
metrics = "0.23"
metrics-exporter-prometheus = { version = "0.15", default-features = false }
axum = "0.7"
tokio = { version = "1.38", features = ["full"] }
tokio-stream = { version = "0.1", features = ["sync"] }
tower-http = { version = "0.5", features = ["cors"] }
chrono = { version = "0.4", features = ["serde"] }
clickhouse = { version = "0.12", features = ["uuid"] }
dotenvy = "0.15"
lazy_static = "1"
nalgebra = "0.32"
parking_lot = "0.12"
rand = "0.8"
rand_distr = "0.4"
rayon = "1"
reqwest = { version = "0.12", default-features = false }
rumqttc = { version = "0.24", default-features = false }
serde = { version = "1", features = ["derive"] }
serde_json = "1"
thiserror = "1"
tracing = "0.1"
tracing-subscriber = { version = "0.3", features = ["env-filter"] }
uuid = { version = "1", features = ["v4", "serde"] }
