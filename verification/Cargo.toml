[package]
name = "minihttp"
version = "0.1.0"
edition = "2021"
publish = false

[dependencies]
sha1 = "*"
base64 = "*"
bytes = "1"
http = "1"
http-body-util = "0.1"
hyper = { version = "1", features = ["http1", "server"] }
hyper-util = { version = "*", features = ["tokio"] }
tokio = { version = "1", features = ["rt", "net"] }
tokio-rustls = "0.24"
rustls-pemfile = "1"
futures-util = "0.3"
tokio-tungstenite = "0.21"
serde = "1"
serde_json = "1"
async-trait = "*"
pin-project-lite = "*"
