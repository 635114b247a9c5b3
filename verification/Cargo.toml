[package]
name = "smart_auth"
version = "0.1.0"
edition = "2021"
publish = false

[dependencies]
jsonwebtoken = "9"
serde = "1"
serde_json = "1"
