[package]
name = "rust_vm"
version = "0.1.0"
edition = "2021"
publish = false

[dependencies]
chrono = "0.4"
console_error_panic_hook = "0.1"
js-sys = "0.3"
serde_json = "1"
uuid = { version = "1", features = ["v4"] }
wasm-bindgen = "0.2"
wasm-bindgen-futures = "0.4"
