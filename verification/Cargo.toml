[package]
name = "duplo_train_controller"
version = "0.1.0"
edition = "2021"
publish = false

[dependencies]
anyhow = "1"
btleplug = "0.11"
dotenvy = "0.15"
rumqttc = { version = "0.24", default-features = false }
serde = { version = "1", features = ["derive"] }
serde-env = "*"
serde_json = "1"
tokio = { version = "1", features = ["full"] }
tokio-stream = "0.1"
tracing = "0.1"
tracing-subscriber = { version = "0.3", features = ["env-filter"] }
uuid = "1"
