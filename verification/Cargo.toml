[package]
name = "webhdfs"
version = "0.4.0"
edition = "2021"
publish = false

[dependencies]
http = "0.2"
mime = "0.3"
hyper = { version = "0.14", features = ["client", "http1", "http2", "tcp", "stream"] }
hyper-tls = "0.5"
native-tls = "0.2"
tokio = { version = "1", features = ["rt", "time", "net"] }
futures = "0.3"
bytes = "1"
serde = { version = "1", features = ["derive"] }
serde_json = "1"
toml = "0.5"
