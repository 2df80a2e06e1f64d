[package]
name = "cubic_spline"
version = "1.0.0"
edition = "2021"
publish = false

[dependencies]
rustc_apfloat = "*"
wasm-bindgen = "*"
