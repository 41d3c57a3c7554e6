[package]
name = "starfield"
version = "0.1.0"
edition = "2021"
publish = false

[dependencies]
rand = "0.8"
three-d = "0.14"
log = "0.4"
console_log = "0.2"
console_error_panic_hook = "0.1"
wasm-bindgen = "0.2"
