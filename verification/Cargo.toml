[package]
name = "edge_detection"
version = "0.1.0"
edition = "2021"
publish = false

[dependencies]
image = "0.25"
imageproc = "0.25"
wasm-bindgen = "0.2"
web-sys = { version = "0.3", features = ["console"] }
