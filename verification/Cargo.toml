[package]
name = "apiserver_bootstrap"
version = "0.1.0"
edition = "2021"
publish = false

[dependencies]
kube = { version = "=3.1.0", default-features = false, features = ["client", "rustls-tls", "ring"] }
k8s-openapi = { version = "=0.27.1", features = ["latest"] }
prometheus = "0.13"
opentelemetry = "0.23"
opentelemetry_sdk = { version = "0.23", features = ["metrics"] }
opentelemetry-prometheus = "0.16"
actix-web = "4"
tracing = "0.1"
rustls = { version = "0.23", default-features = false, features = ["ring", "std", "logging", "tls12"] }

[dev-dependencies]
http = "1"
