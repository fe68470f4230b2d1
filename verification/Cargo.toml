[package]
name = "nsis_download"
version = "0.1.0"
edition = "2021"
publish = false

[dependencies]
ureq = { version = "=2.12.1", default-features = false, features = ["tls"] }
url = "=2.5.8"
