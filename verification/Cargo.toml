[package]
name = "aqueduct"
version = "0.1.0"
edition = "2021"
publish = false

[dependencies]
base64 = "=0.22.1"
bytes = "=1.12.1"
clap = { version = "=4.6.7", features = ["derive"] }
dotenv = "=0.15.0"
futures = "=0.3.34"
hmac = "=0.12.1"
regex = "=1.13.1"
rustls = { version = "=0.23.46", default-features = false, features = ["std", "ring", "tls12", "logging"] }
rustls-native-certs = "=0.7.3"
rustyline = "=19.0.0"
serde = { version = "=1.0.229", features = ["derive"] }
serde_json = "=1.0.154"
sha2 = "=0.10.9"
socket2 = "=0.6.5"
tokio = { version = "=1.54.1", features = ["full"] }
tokio-rustls = { version = "=0.26.6", default-features = false }
tokio-util = { version = "=0.7.20", features = ["codec", "rt"] }
tracing = "=0.1.44"
tracing-appender = "=0.2.5"
tracing-subscriber = { version = "=0.3.23", features = ["env-filter"] }
