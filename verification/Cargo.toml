[package]
name = "ip_monitor"
version = "0.1.0"
edition = "2021"
publish = false

[dependencies]
config = "0.13"
log = "0.4"
reqwest = { version = "0.11", features = ["blocking", "json"] }
serde = { version = "1", features = ["derive"] }
serde_json = "1"
serde_yaml = "0.9"
simple_logger = "4"
