[package]
name = "json_order_service"
version = "0.1.0"
edition = "2021"
publish = false

[dependencies]
uuid = { version = "1", features = ["v4", "serde"] }
base64 = "0.22"
axum = "0.7"
tokio = { version = "1", features = ["full"] }
serde = { version = "1", features = ["derive"] }
serde_json = "1"
sqlx = { version = "0.8", default-features = false, features = ["runtime-tokio", "postgres", "uuid", "chrono", "json", "macros", "migrate"] }
sea-query = { version = "0.32", features = ["derive", "with-uuid", "with-chrono", "with-json"] }
sea-query-binder = { version = "0.7", features = ["sqlx-postgres", "with-uuid", "with-chrono", "with-json"] }
chrono = { version = "0.4", features = ["serde"] }
reqwest = { version = "0.12", default-features = false, features = ["json"] }
lapin = "2"
deadpool-lapin = "0.12"
futures-lite = "2"
jsonwebtoken = "9"
async-trait = "0.1"
tracing = "0.1"
tracing-subscriber = { version = "0.3", features = ["env-filter"] }
dotenvy = "0.15"
thiserror = "1"
validator = { version = "0.18", features = ["derive"] }
utoipa = "4"
metrics = "0.24"
metrics-exporter-prometheus = { version = "0.16", default-features = false }
metrics-process = "2"
