[package]
name = "infra_engine"
version = "0.1.0"
edition = "2021"
publish = false

[dependencies]
base64 = "=0.23.1"
itertools = "=0.15.0"
json-patch = "*"
jsonptr = "=0.7.1"
k8s-openapi = { version = "=0.27.1", features = ["latest"] }
kube = { version = "*", default-features = false, features = ["client", "runtime", "jsonpatch"] }
scaleway_api_rs = "=0.1.10"
serde = "*"
serde_derive = "*"
serde_json = "*"
tokio = { version = "*", features = ["rt", "time"] }
url = "=2.5.8"
uuid = "*"
