[package]
name = "traffic_viewer"
version = "0.1.0"
edition = "2021"
publish = false

[dependencies]
fsd_interface = "*"
serde = { version = "1", features = ["derive"] }
serde_json = "1"
ureq = "2"
