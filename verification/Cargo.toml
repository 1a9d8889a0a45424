[package]
name = "teamscale_timestamp"
version = "0.1.0"
edition = "2021"
publish = false

[dependencies]
chrono = "0.4"
serde_json = "1"
clap = "4"

[dependencies.reqwest]
version = "*"
default-features = false
features = ["blocking", "rustls-tls"]
