[package]
name = "eip_operator"
version = "0.1.0"
edition = "2021"
publish = false

[dependencies]
aws-config = "=1.13.0"
aws-sdk-servicequotas = "=1.119.0"
futures-util = "=0.3.34"
json-patch = "=4.2.0"
k8s-openapi = { version = "=0.27.1", features = ["latest"] }
kube = { version = "=3.1.0", features = ["runtime", "derive", "jsonpatch"] }
kube-runtime = "=3.1.0"
opentelemetry = "=0.33.1"
opentelemetry-otlp = "=0.33.1"
opentelemetry_sdk = "=0.33.1"
rand = "=0.8.8"
schemars = "=1.2.3"
serde = { version = "1", features = ["derive"] }
serde_json = "=1.0.154"
thiserror = "=1.0.69"
tokio = { version = "=1.54.1", features = ["macros", "rt-multi-thread", "time"] }
tracing = "=0.1.44"
tracing-opentelemetry = "=0.34.0"
tracing-subscriber = { version = "=0.3.23", features = ["env-filter"] }
