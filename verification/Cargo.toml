[package]
name = "sha3_256"
version = "0.1.0"
edition = "2021"
publish = false

[dependencies]
keccak = "*"
wasm-bindgen = "*"

[dev-dependencies]
sha3 = "*"
