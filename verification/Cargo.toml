[package]
name = "picoserde"
version = "0.1.0"
edition = "2021"
publish = false

[dependencies]
fnv = "1"
js-sys = "0.3"
wasm-bindgen = "0.2"
