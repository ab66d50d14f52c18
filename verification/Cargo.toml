[package]
name = "rocket_okapi"
version = "0.1.0"
edition = "2021"
publish = false

[dependencies]
okapi = "=0.1.2"
rocket = { version = "=0.5.2", default-features = false }
schemars = "=0.1.10"
serde_json = "=1.0.154"
