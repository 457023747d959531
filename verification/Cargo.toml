[package]
name = "address_classifier"
version = "0.1.0"
edition = "2021"
publish = false

[dependencies]
base58 = "*"
sha2 = "*"
blake2 = "*"
serde = { version = "*", features = ["derive"] }
wasm-bindgen = "*"
serde-wasm-bindgen = "*"
