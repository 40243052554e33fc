[package]
name = "remotefs"
version = "0.1.0"
edition = "2021"
publish = false

[dependencies]
base64 = "=0.23.1"
cloud-storage = { version = "=0.11.1", features = ["global-client"] }
tokio = { version = "=1.53.2", features = ["fs", "io-util", "sync", "rt"] }
tokio-util = { version = "=0.7.19", features = ["codec"] }
futures = "=0.3.34"
tempfile = "=3.27.0"
log = "=0.4.34"
