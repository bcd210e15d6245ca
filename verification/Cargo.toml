[package]
name = "axum_otel_demo"
version = "0.1.0"
edition = "2021"
publish = false

[dependencies]
axum = "=0.8.9"
tokio = { version = "=1.53.2", features = ["rt-multi-thread", "macros", "signal", "net"] }
http-body-util = "=0.1.5"
serde = { version = "=1.0.229", features = ["derive"] }
opentelemetry = "=0.33.0"
opentelemetry_sdk = "=0.33.0"
opentelemetry-otlp = { version = "=0.33.0", features = ["grpc-tonic", "trace", "logs"] }
opentelemetry-semantic-conventions = "=0.33.0"
pyroscope = "=0.5.8"
pyroscope_pprofrs = "=0.2.10"
