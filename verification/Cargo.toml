[package]
name = "marketplace_upgrade"
version = "0.1.0"
edition = "2021"
publish = false

[dependencies]
chrono = "0.4"
tempfile = "3"
toml = "0.9"
tracing = "0.1"
