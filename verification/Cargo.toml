[package]
name = "rusty_proxy"
version = "0.1.0"
edition = "2021"
publish = false

[dependencies]
tokio = { version = "1", features = ["full"] }
tokio-rustls = "0.24"
tokio-tungstenite = "0.20"
rustls-pemfile = "1"
