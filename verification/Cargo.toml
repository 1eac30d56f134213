[package]
name = "beryllium"
version = "0.1.0"
edition = "2021"
publish = false

[dependencies]
base64 = "=0.23.1"
bytes = "1"
http-body-util = "0.1"
hyper = { version = "=1.12.0", features = ["server", "client", "http1"] }
hyper-rustls = "=0.27.10"
hyper-util = { version = "=0.1.21", features = ["client-legacy", "http1", "tokio", "server"] }
image = { version = "=0.25.10", default-features = false, features = ["jpeg", "png", "gif", "bmp"] }
log = "=0.4.34"
md-5 = "=0.11.0"
mime = "=0.3.17"
openssl = "=0.10.81"
parking_lot = "=0.13.0"
protobuf = "=3.7.2"
rustls = "=0.23.46"
serde = "=1.0.229"
serde_derive = "=1.0.229"
serde_json = "=1.0.154"
sha2 = "=0.11.1"
tokio = { version = "=1.54.1", features = ["rt-multi-thread", "net", "sync", "io-util"] }
tokio-rustls = "=0.26.6"
uuid = { version = "=1.29.0", features = ["v1", "serde"] }
