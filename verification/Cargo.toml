[package]
name = "uuid45"
version = "0.1.0"
edition = "2021"
publish = false

[dependencies]
qr-base45 = "*"
uuid = { version = "*", features = ["v4"] }
hex = "*"
thiserror = "*"
wasm-bindgen = "*"
js-sys = "*"
