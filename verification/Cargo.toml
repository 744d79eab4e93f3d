[package]
name = "logbridge"
version = "0.1.0"
edition = "2021"
publish = false

[dependencies]
web-time = "*"
log = "*"
fern = "*"
lazy_static = "*"
wasm-bindgen = "*"
js-sys = "*"
web-sys = { version = "*", features = ["console"] }
