[package]
name = "trmnl_plugin_server"
version = "0.1.0"
edition = "2021"
publish = false

[dependencies]
actix-web = "4"
chrono = "0.4"
csv = "1"
gtfs-realtime = "*"
include_dir = "0.7"
lazy_static = "1"
prost = "*"
reqwest = "*"
serde = { version = "1", features = ["derive"] }
serde_json = "1"
tokio = { version = "1", features = ["full"] }
