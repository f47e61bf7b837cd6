[package]
name = "restcore"
version = "0.1.0"
edition = "2021"
publish = false

[dependencies]
http = "*"
serde_json = "*"
serde_urlencoded = "*"
url = "*"

[dev-dependencies]
serde = "*"
