[package]
name = "node_rs"
version = "0.1.0"
edition = "2021"
publish = false

[dependencies]
protobuf = "2"
websocket = { version = "0.26", default-features = false, features = ["sync"] }
