[package]
name = "firecracker_poc"
version = "0.1.0"
edition = "2021"
publish = false

[dependencies]
axum = "*"
http-body-util = "*"
hyper = { version = "1", features = ["client", "http1"] }
hyper-util = { version = "*", features = ["client", "client-legacy", "http1", "tokio"] }
hyperlocal = "*"
reqwest = { version = "*", default-features = false, features = ["json"] }
serde = { version = "1", features = ["derive"] }
serde_json = "1"
thiserror = "*"
tokio = { version = "1", features = ["full"] }
tower = "*"
tower-http = { version = "*", features = ["trace"] }
tracing = "*"
tracing-subscriber = "*"
uuid = { version = "1", features = ["v4"] }
