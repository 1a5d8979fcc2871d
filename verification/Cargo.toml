[package]
name = "clash_controller"
version = "0.1.0"
edition = "2021"
publish = false

[dependencies]
urlencoding = "2"
serde_json = "1"
serde = { version = "1", features = ["derive"] }
hyper = { version = "1", features = ["client", "http1"] }
hyper-util = { version = "0.1", features = ["client-legacy", "http1", "tokio"] }
http-body-util = "0.1"
hyperlocal = { version = "0.9", default-features = false, features = ["client"] }
tokio = { version = "1", features = ["rt", "net"] }
