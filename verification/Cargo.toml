[package]
name = "resters"
version = "0.1.0"
edition = "2021"
publish = false

[dependencies]
json-tools = "*"
serde_json = "1"
ureq = { version = "2", default-features = false }
