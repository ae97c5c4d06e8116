[package]
name = "miska"
version = "0.1.0"
edition = "2021"
publish = false

[dependencies]
anyhow = "=1.0.104"
cap-std = "=4.0.3"
tempfile = "=3.27.0"
wasmtime = "=48.0.5"
wasmtime-wasi = "=48.0.5"
