[package]
name = "wasm_bridge"
version = "0.1.0"
edition = "2021"
publish = false

[dependencies]
anyhow = "=1.0.104"
argon2 = "=0.6.0"
clap = { version = "=4.6.7", features = ["derive"] }
pulldown-cmark = "=0.13.5"
serde_json = "=1.0.154"
sevenz-rust = { version = "=0.6.1", features = ["compress"] }
wasmtime = { version = "41", default-features = false, features = ["runtime", "cranelift", "component-model", "std"] }
wasmtime-wasi = "41"
