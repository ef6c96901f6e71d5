[package]
name = "geoviewer"
version = "0.1.0"
edition = "2021"
publish = false

[dependencies]
base64 = "0.22"
geokernel = "*"
serde_json = "1"
