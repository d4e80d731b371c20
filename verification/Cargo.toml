[package]
name = "tgi_router"
version = "0.1.0"
edition = "2021"
publish = false

[dependencies]
serde = { version = "1", features = ["derive"] }
serde_json = "=1.0.151"
tokio = { version = "1", features = ["rt-multi-thread", "macros", "sync", "time", "signal", "net"] }
axum = "0.6"
futures = "0.3"
regex = "1"
async-stream = "0.3"
