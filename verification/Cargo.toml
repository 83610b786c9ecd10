[package]
name = "kube_switch"
version = "0.1.0"
edition = "2021"
publish = false

[dependencies]
anyhow = "1"
clap = { version = "4", features = ["derive"] }
k8s-openapi = { version = "*", features = ["latest"] }
kube = "*"
serde = { version = "1", features = ["derive"] }
serde_yaml = "0.9"
skim = { version = "*", default-features = false }
tokio = { version = "1", features = ["macros", "rt-multi-thread"] }
