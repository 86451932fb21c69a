[package]
name = "openlaps"
version = "0.1.0"
edition = "2021"
publish = false

[dependencies]
rusqlite = { version = "*", features = ["bundled"] }
serde = { version = "*", features = ["derive"] }
serde_json = "*"
tokio = { version = "*", features = ["full"] }
hyper = { version = "0.14", features = ["full"] }
clap = { version = "*", features = ["derive"] }
geojson = "*"
local-ip-address = "*"
