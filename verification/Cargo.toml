[package]
name = "tracing_setup"
version = "0.1.0"
edition = "2021"
publish = false

[dependencies]
chrono = "=0.4.45"
tracing = "=0.1.44"
tracing-appender = "=0.2.5"
tracing-subscriber = { version = "=0.3.23", features = ["env-filter", "json"] }
opentelemetry-jaeger = "=0.22.0"
tracing-opentelemetry = "=0.24.0"
