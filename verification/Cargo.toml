[package]
name = "gdp"
version = "0.1.0"
edition = "2021"
publish = false

[dev-dependencies]
jwt = "*"
serde_json = "*"
