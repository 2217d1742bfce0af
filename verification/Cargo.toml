[package]
name = "cutekit"
version = "0.1.0"
edition = "2021"
publish = false

[dependencies]
dirs = "=7.0.0"
eyre = "=0.6.14"
figment = { version = "=0.10.19", features = ["toml"] }
gtk4 = { version = "=0.11.5", features = ["v4_12"] }
gtk4-layer-shell = "=0.8.1"
serde = { version = "=1.0.229", features = ["derive"] }
serde_json = "=1.0.154"
tokio = { version = "=1.54.1", features = ["full"] }
tracing = "=0.1.44"
tracing-subscriber = { version = "=0.3.23", features = ["env-filter"] }
zbus = { version = "=6.1.0", default-features = false, features = ["tokio", "proxy", "service"] }
