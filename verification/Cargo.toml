[package]
name = "wf_exporter"
version = "0.1.0"
edition = "2021"
publish = false

[dependencies]
serde = { version = "*", features = ["derive"] }
serde_with = "*"
serde_yaml = "*"
wasm-bindgen = "*"
gloo-utils = { version = "*", features = ["serde"] }
