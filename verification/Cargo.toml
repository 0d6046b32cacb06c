[package]
name = "kube_agent"
version = "0.1.0"
edition = "2021"
publish = false

[dependencies]
anyhow = "1"
bytes = "1"
opentelemetry-proto = { version = "*", default-features = false, features = ["gen-tonic-messages", "metrics"] }
prost = "*"
reqwest = "*"
serde = { version = "1", features = ["derive"] }
serde_json = "1"
tokio = { version = "1", features = ["full"] }
tracing = "*"

[dev-dependencies]
rustls = { version = "*", default-features = false, features = ["ring", "std"] }
