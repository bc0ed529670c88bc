[package]
name = "wasm2obj"
version = "0.1.0"
edition = "2021"
publish = false

[dependencies]
faerie = "=0.1.0"
