[package]
name = "example_mapp"
version = "0.1.0"
edition = "2021"
publish = false

[dependencies]
include_dir = "0.6"
lazy_static = "1"
regex = "1"
wasm-bindgen = "0.2"
