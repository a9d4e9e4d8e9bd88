[package]
name = "benri_qr"
version = "0.1.0"
edition = "2021"
publish = false

[dependencies]
qrcode = "*"
serde = { version = "*", features = ["derive"] }
serde_json = "*"
calamine = "*"
clap = { version = "*", features = ["derive"] }
wasm-bindgen = "*"
