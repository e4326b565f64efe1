[package]
name = "o11y"
version = "0.1.0"
edition = "2021"
publish = false

[dependencies]
anyhow = "=1.0.104"
base64 = "=0.22.1"
opentelemetry = "=0.27.1"
opentelemetry_sdk = { version = "=0.27.1", features = ["trace", "logs", "metrics", "rt-tokio"] }
opentelemetry-otlp = { version = "=0.27.0", features = ["grpc-tonic", "http-proto", "reqwest-client", "trace", "metrics", "logs"] }
opentelemetry-semantic-conventions = { version = "=0.27.0", features = ["semconv_experimental"] }
opentelemetry-appender-tracing = "=0.27.0"
pyroscope = "=0.5.8"
pyroscope_pprofrs = "=0.2.10"
thiserror = "=1.0.69"
tokio = { version = "=1.54.1", features = ["rt", "rt-multi-thread"] }
tonic = { version = "=0.12.3", default-features = false }
tracing = "=0.1.44"
tracing-opentelemetry = "=0.28.0"
tracing-subscriber = { version = "=0.3.23", features = ["env-filter"] }
