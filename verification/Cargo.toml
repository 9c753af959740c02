[package]
name = "tracing_wasm"
version = "0.1.0"
edition = "2021"
publish = false

[dependencies]
tracing = "0.1"
tracing-subscriber = { version = "0.3", features = ["registry"] }
wasm-bindgen = "0.2"
