[package]
name = "compact_length"
version = "0.1.0"
edition = "2021"
publish = false

[dependencies]
taffy = { version = "*", features = ["serde"] }
wasm-bindgen = "*"
js-sys = "*"
serde = { version = "*", features = ["derive"] }
serde-wasm-bindgen = "*"
console_error_panic_hook = "*"
