[package]
name = "hubify"
version = "0.1.0"
edition = "2021"
publish = false

[dependencies]
url = "=2.5.8"
kube = { version = "=0.82.2", features = ["runtime", "derive"] }
k8s-openapi = { version = "=0.18.0", features = ["v1_26"] }
axum = "=0.6.20"
hyper = "=0.14.32"
tokio = { version = "=1.54.1", features = ["full"] }
futures = "=0.3.34"
backoff = "=0.4.0"
tracing = "=0.1.44"
tracing-subscriber = { version = "=0.3.23", features = ["env-filter"] }
tracing-opentelemetry = "=0.18.0"
opentelemetry = { version = "=0.18.0", features = ["rt-tokio"] }
opentelemetry-otlp = { version = "=0.11.0", features = ["http-proto"] }
axum-tracing-opentelemetry = { version = "=0.10.0", features = ["tracer"] }
serde = { version = "=1.0.229", features = ["derive"] }
serde_json = "=1.0.154"
serde_yaml = "=0.9.34"
schemars = { version = "=0.8.22", features = ["url"] }
clap = { version = "=4.6.7", features = ["derive"] }
envy = "=0.4.2"
thiserror = "=1.0.69"
anyhow = "=1.0.104"
log = "=0.4.35"
pretty_env_logger = "=0.4.0"
