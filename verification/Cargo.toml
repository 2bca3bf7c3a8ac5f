[package]
name = "nuimo"
version = "0.1.0"
edition = "2021"
publish = false

[dependencies]
serde_json = "1"
weave-contracts = "*"
uuid = "1"
thiserror = "*"
anyhow = "1"
tokio = { version = "1", features = ["rt-multi-thread", "macros", "sync", "time"] }
tokio-stream = "0.1"
futures = "0.3"
tracing = "0.1"
tracing-subscriber = "0.3"
rumqttc = { version = "*", default-features = false }
bluer = { version = "*", features = ["bluetoothd"] }
btleplug = "*"
