[package]
name = "telemetry_node"
version = "0.1.0"
edition = "2021"
publish = false

[dependencies]
anyhow = "1"
log = "0.4"
embedded-svc = "*"
esp-idf-hal = "*"
esp-idf-svc = "*"
toml-cfg = "*"
