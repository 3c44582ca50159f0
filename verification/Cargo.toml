[package]
name = "tangent_gen"
version = "0.1.0"
edition = "2021"
publish = false

[dependencies]
mikktspace = "*"
wasm-bindgen = "*"
console_error_panic_hook = "*"
