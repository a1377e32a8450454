[package]
name = "integration_test_commons"
version = "0.1.0"
edition = "2021"
publish = false

[dependencies]
anyhow = "1.0"
futures = "0.3"
k8s-openapi = { version = "0.13", default-features = false, features = ["v1_21"] }
kube = { version = "0.59", default-features = false, features = ["client", "native-tls"] }
kube-derive = "0.59"
once_cell = "1"
schemars = "0.8"
serde = { version = "1.0", features = ["derive"] }
serde_json = "1.0"
serde_yaml = "=0.8.26"
spectral = "0.6"
tokio = { version = "1", features = ["rt-multi-thread", "time"] }
uuid = { version = "=0.8.2", features = ["v4"] }
