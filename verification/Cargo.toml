[package]
name = "plaque"
version = "0.1.0"
edition = "2021"
publish = false

[dependencies]
console-subscriber = "0.1"
opentelemetry = { version = "0.17", features = ["rt-tokio"] }
opentelemetry-jaeger = { version = "0.16", features = ["rt-tokio"] }
tokio = { version = "1", features = ["full"] }
tracing = "0.1"
tracing-chrome = "*"
tracing-opentelemetry = "0.17"
tracing-subscriber = { version = "0.3", features = ["env-filter"] }
tracing-tree = "*"
