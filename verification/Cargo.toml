[package]
name = "ant_compiler"
version = "0.1.0"
edition = "2021"
publish = false

[dependencies]
wasm-encoder = "=0.263.0"
indexmap = "=2.14.2"
cranelift = "=0.131.3"
clap = { version = "=4.6.7", features = ["derive"] }

[dev-dependencies]
wasmparser = "=0.263.0"
