[package]
name = "peregrine"
version = "0.1.0"
edition = "2021"
publish = false

[dependencies]
serde = { version = "=1.0.229", features = ["derive"] }
serde_json = "=1.0.154"
uuid = { version = "=1.29.0", features = ["v4"] }
thiserror = "=1.0.69"
tokio = { version = "=1.54.1", features = ["sync"] }
rhai = "=1.27.0"
chrono = "=0.4.45"
notify = "=6.1.1"
resvg = "=0.49.0"
png = "0.17"
