[package]
name = "maitreya_engine"
version = "0.1.0"
edition = "2021"
publish = false

[dependencies]
serde = { version = "*", features = ["derive"] }
serde_json = "*"
log = "*"
wasm-bindgen = "*"
console_error_panic_hook = "*"
wasm-bindgen-console-logger = "*"
