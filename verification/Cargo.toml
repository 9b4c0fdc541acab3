[package]
name = "podman_exporter"
version = "0.1.0"
edition = "2021"
publish = false

[dependencies]
anyhow = "1"
clap = { version = "3", features = ["derive"] }
hyper = { version = "0.14", features = ["server", "http1", "tcp"] }
lazy_static = "1"
podman-api = "*"
prometheus = "0.13"
serde_json = "1"
tokio = { version = "1", features = ["macros", "rt-multi-thread"] }
