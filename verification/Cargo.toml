[package]
name = "hw_telemetry"
version = "0.1.0"
edition = "2021"
publish = false

[dependencies]
anyhow = "1"
glob = "0.3"
log = "0.4"

[dev-dependencies]
lazy-regex = "3"
