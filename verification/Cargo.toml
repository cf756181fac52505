[package]
name = "creep_engine"
version = "0.1.0"
edition = "2021"
publish = false

[dependencies]
screeps-game-api = "*"
wasm-bindgen = "*"
js-sys = "*"
log = "*"
serde = { version = "*", features = ["derive"] }
serde-wasm-bindgen = "*"
