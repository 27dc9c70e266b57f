[package]
name = "gateway_wire"
version = "0.1.0"
edition = "2021"
publish = false

[dependencies]
flate2 = "1"
futures = "0.3"
pieced = "*"
serde = { version = "1", features = ["derive"] }
serde_json = "1"
tokio = { version = "1", features = ["net", "time"] }
tokio-tungstenite = "0.19"
tracing = "0.1"
url = "2"
