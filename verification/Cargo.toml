[package]
name = "tracing_browser_subscriber"
version = "0.2.1"
edition = "2021"
publish = false

[dependencies]
tracing = { version = "0.1", default-features = false, features = ["std"] }
tracing-subscriber = { version = "0.3", default-features = false, features = ["registry"] }
wasm-bindgen = { version = "0.2" }
