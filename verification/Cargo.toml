[package]
name = "oc_wasm_safe"
version = "0.1.0"
edition = "2021"
publish = false

[dependencies]
minicbor = { version = "=2.3.1", features = ["std"] }
oc-wasm-sys = "=0.12.1"
ordered-float = { version = "=4.6.0", default-features = false }
uuid = "=1.29.0"
