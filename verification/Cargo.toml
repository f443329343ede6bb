[package]
name = "spur-cloud-api"
version = "0.1.0"
edition = "2021"
publish = false

[dependencies]
uuid = { version = "=1.29.0", features = ["serde"] }
axum = { version = "=0.7.9", features = ["ws"] }
tokio = { version = "=1.54.1", features = ["full"] }
serde = { version = "=1.0.229", features = ["derive"] }
chrono = { version = "=0.4.45", features = ["serde"] }
kube = { version = "=0.98.0", default-features = false, features = ["client", "derive", "ws"] }
k8s-openapi = { version = "=0.24.0", features = ["v1_32"] }
schemars = "=0.8.22"
futures-util = { version = "=0.3.34", features = ["sink"] }
anyhow = "=1.0.104"
clap = { version = "4", features = ["derive"] }
sqlx = { version = "0.8", default-features = false, features = ["runtime-tokio", "postgres", "uuid", "chrono", "macros"] }
tower-http = { version = "0.6", features = ["cors", "trace"] }
tracing = "0.1"
tracing-subscriber = { version = "0.3", features = ["env-filter"] }
tokio-stream = "0.1"
tonic = "0.12"
prost-types = "0.13"
