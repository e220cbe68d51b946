[package]
name = "cni_repair"
version = "0.1.0"
edition = "2021"
publish = false

[dependencies]
anyhow = "1"
bytes = "1"
clap = { version = "4", features = ["derive", "env"] }
futures = "0.3"
k8s-openapi = { version = "=0.25.0", features = ["latest"] }
kube = { version = "=1.1.0", features = ["runtime"] }
kubert = { version = "=0.25.0", features = ["clap", "prometheus-client", "runtime", "rustls-tls-aws-lc-rs"] }
prometheus-client = "=0.23.1"
rand = "=0.8.8"
rustls = "0.23"
tokio = { version = "=1.54.1", features = ["io-util", "macros", "net", "rt", "rt-multi-thread", "signal", "sync", "time"] }
tracing = "0.1"
