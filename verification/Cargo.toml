[package]
name = "senza_wasm"
version = "0.1.0"
edition = "2021"
publish = false

[dependencies]
chrono = "=0.4.45"
console_error_panic_hook = "=0.1.7"
futures = "=0.3.34"
js-sys = "=0.3.107"
parking_lot = "=0.12.5"
serde = { version = "=1.0.229", features = ["derive"] }
serde_json = "=1.0.154"
tokio-util = "=0.7.20"
wasm-bindgen = "=0.2.130"
wasm-bindgen-futures = "=0.4.80"
