[package]
name = "inbound_policy"
version = "0.1.0"
edition = "2021"
publish = false

[dependencies]
http = "1"
regex = "1"
tokio = { version = "1", default-features = false, features = ["sync"] }
