[package]
name = "websocat"
version = "0.1.0"
edition = "2021"
publish = false

[dependencies]
anyhow = "=1.0.104"
clap = "=2.34.0"
derivative = "=2.2.0"
env_logger = "=0.4.3"
error-chain = "=0.12.4"
futures = "=0.3.34"
http = "=0.2.12"
hyper = { version = "=0.14.32", features = ["http1", "server", "stream"] }
log = "=0.3.9"
readwrite = { version = "=0.2.0", features = ["tokio"] }
tokio = { version = "=1.54.1", features = ["rt", "sync", "io-util"] }
tokio-core = "=0.1.18"
tracing = "=0.1.44"
url = "=1.7.2"
websocket = { version = "=0.20.4", default-features = false, features = ["sync", "async"] }
