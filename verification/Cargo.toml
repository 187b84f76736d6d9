[package]
name = "trace_boot"
version = "0.1.0"
edition = "2021"
publish = false

[dependencies]
anyhow = "=1.0.104"
opentelemetry = { version = "=0.26.0", features = ["trace"] }
opentelemetry_sdk = { version = "=0.26.0", features = ["trace", "rt-tokio"] }
opentelemetry-otlp = { version = "=0.26.0", default-features = false, features = ["trace", "grpc-tonic"] }
opentelemetry-stdout = { version = "=0.26.0", features = ["trace"] }
sulid = "=0.7.0"
tokio = { version = "=1.54.1", features = ["rt-multi-thread"] }
