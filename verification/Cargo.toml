[package]
name = "signal_bridge"
version = "0.1.0"
edition = "2021"
publish = false

[dependencies]
base64 = "=0.23.1"
prost = "=0.14.4"
waproto = "=0.2.0"
wacore-libsignal = "=0.2.0"
wasm-bindgen = "=0.2.129"
wasm-bindgen-futures = "=0.4.79"
js-sys = "=0.3.106"
async-trait = "=0.1.92"
serde = { version = "=1.0.229", features = ["derive"] }
serde_bytes = "=0.11.19"
serde-wasm-bindgen = "=0.6.5"
serde_json = "=1.0.154"
console_error_panic_hook = "=0.1.7"
curve25519-dalek = "=4.1.3"
img-parts = "=0.4.1"
uuid = { version = "=1.29.0", features = ["v4"] }
rand = "=0.9.5"
log = "=0.4.34"
