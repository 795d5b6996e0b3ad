[package]
name = "telemetry_bridge"
version = "0.1.0"
edition = "2021"
publish = false

[dependencies]
base64 = "=0.23.1"
chrono = "=0.4.45"
futures-util = "=0.3.34"
log = "=0.4.34"
opcua = { version = "=0.12.0", default-features = false, features = ["client"] }
prost = "=0.14.4"
serde = { version = "=1.0.229", features = ["derive"] }
serde_json = "=1.0.151"
tokio = { version = "=1.53.2", features = ["rt-multi-thread", "macros", "time", "net", "sync"] }
tokio-native-tls = "=0.3.1"
tokio-tungstenite = "=0.30.0"
url = "=2.5.8"
