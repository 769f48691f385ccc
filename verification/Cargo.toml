[package]
name = "raw_processor"
version = "0.1.0"
edition = "2021"
publish = false

[dependencies]
rawler = "*"
image = "*"
log = "*"
serde = { version = "*", features = ["derive"] }
wasm-bindgen = "*"
web-sys = { version = "*", features = ["Window", "Event", "EventTarget"] }
serde-wasm-bindgen = "*"
wasm-logger = "*"
console_error_panic_hook = "*"
