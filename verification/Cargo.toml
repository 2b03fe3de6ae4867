[package]
name = "cedar_playground"
version = "0.1.0"
edition = "2021"
publish = false

[dependencies]
cedar-policy = "2"
serde_json = "1"
wasm-bindgen = "0.2"
