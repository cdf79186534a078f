[package]
name = "wasm_offload"
version = "0.1.0"
edition = "2021"
publish = false

[dependencies]
wasmtime = "=48.0.5"
wasmtime-wasi = "48"
