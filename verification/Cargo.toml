[package]
name = "unicode_explorer"
version = "0.1.0"
edition = "2021"
publish = false

[dependencies]
unic = "0.9"
serde = { version = "1", features = ["derive"] }
wasm-bindgen = { version = "0.2", features = ["serde-serialize"] }
yew = "0.18"
