[package]
name = "dedicated_networking"
version = "0.1.0"
edition = "2021"
publish = false

[dependencies]
kube = "*"
k8s-openapi = { version = "*", features = ["latest"] }
serde = { version = "*", features = ["derive"] }
serde_json = "*"
tracing = "*"
