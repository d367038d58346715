[package]
name = "ohttp_relay"
version = "0.1.0"
edition = "2021"
publish = false

[dependencies]
futures = "=0.3.34"
http = "=1.5.0"
http-body-util = "=0.1.5"
hyper = { version = "=1.12.0", features = ["client", "http1", "server"] }
hyper-rustls = { version = "=0.26.0", default-features = false, features = ["http1", "ring", "tls12", "webpki-roots"] }
hyper-tungstenite = "=0.13.0"
hyper-util = { version = "=0.1.21", features = ["client-legacy", "http1", "tokio"] }
rustls = { version = "=0.22.4", default-features = false, features = ["ring", "tls12"] }
tokio = { version = "=1.54.1", features = ["io-util", "macros", "net", "rt-multi-thread"] }
tokio-tungstenite = "=0.21.0"
tokio-util = { version = "=0.7.20", features = ["codec", "net"] }
tracing = "=0.1.44"
tracing-subscriber = { version = "=0.3.23", features = ["env-filter"] }
