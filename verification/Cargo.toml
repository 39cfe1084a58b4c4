[package]
name = "recipedia"
version = "0.1.0"
edition = "2021"
publish = false

[dependencies]
anyhow = "1"
bson = "1"
futures = "0.3"
mongodb = "1"
serde = { version = "1", features = ["derive"] }
serde_json = "1"
tokio = { version = "0.2", features = ["macros", "rt-threaded"] }
warp = "0.2"
yew = "0.17"
yew-router = "0.14"
