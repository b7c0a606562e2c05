[package]
name = "aoprism-crypto"
version = "0.1.0"
edition = "2021"
publish = false

[dependencies]
aes-gcm = "=0.10.3"
base64 = "=0.22.1"
bytemuck = "=1.25.2"
futures = "=0.3.34"
once_cell = "=1.21.4"
rand = "=0.8.8"
rsa = { version = "=0.9.10", features = ["sha2"] }
serde = { version = "=1.0.229", features = ["derive"] }
serde_json = "=1.0.154"
serde-wasm-bindgen = "=0.6.5"
signature = { version = "=2.2.0", features = ["rand_core"] }
wasm-bindgen = "=0.2.129"
wasm-bindgen-futures = "=0.4.79"
wgpu = "=22.1.0"
zeroize = { version = "=1.9.1", features = ["zeroize_derive"] }
