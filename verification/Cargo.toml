[package]
name = "fantoccini"
version = "0.1.0"
edition = "2021"
publish = false

[dependencies]
base64 = "0.13"
cookie = { version = "0.15", features = ["percent-encode"] }
http = "0.2"
hyper = { version = "0.14", features = ["client", "http1", "tcp"] }
serde_json = "1"
tokio = { version = "1", features = ["sync", "rt"] }
url = "2"
webdriver = "0.43"
