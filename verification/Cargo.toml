[package]
name = "secret-operators"
version = "0.1.0"
edition = "2021"
publish = false

[dependencies]
base64 = "=0.23.1"
globset = "=0.4.20"
randstr = "=0.2.1"
futures = "=0.3.34"
json-patch = "=4.2.0"
k8s-openapi = { version = "=0.28.0", features = ["latest", "schemars"] }
kube = { version = "=4.2.0", features = ["runtime", "derive"] }
log = "=0.4.34"
pretty_env_logger = "=0.5.0"
schemars = "=1.2.3"
serde = { version = "=1.0.229", features = ["derive"] }
serde_json = "=1.0.154"
serde_yaml = "=0.9.34"
thiserror = "=2.0.21"
tokio = { version = "=1.54.1", features = ["macros", "rt-multi-thread"] }
