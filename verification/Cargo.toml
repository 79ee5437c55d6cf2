[package]
name = "finsim"
version = "0.1.0"
edition = "2021"
publish = false

[dependencies]
serde_json = "1"
chrono = "0.4"
wasm-bindgen = "0.2"
