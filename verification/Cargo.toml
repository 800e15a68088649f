[package]
name = "neuroevo"
version = "0.1.0"
edition = "2021"
publish = false

[dependencies]
rand = "=0.8.5"
rand_chacha = "=0.3.1"
rustc_apfloat = "*"
byteorder = "*"
nalgebra = "*"
serde = { version = "*", features = ["derive"] }
wasm-bindgen = "*"

[dev-dependencies]
approx = "*"
