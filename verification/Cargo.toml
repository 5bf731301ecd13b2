[package]
name = "http_tokio_router"
version = "0.1.0"
edition = "2021"
publish = false

[dependencies]
bytes = "1"
futures = "0.3"
serde = { version = "1", features = ["derive"] }
serde_json = "1"
tokio = { version = "1", features = ["rt", "sync", "net", "time", "io-util"] }
anymap = "*"
async_fn_traits = "*"
thiserror = "*"
