[package]
name = "sycamore_query"
version = "0.1.0"
edition = "2021"
publish = false

[dependencies]
fnv = "1.0"
weak-table = "0.3"
log = "0.4"
fluvio-wasm-timer = "0.2"
sycamore = { version = "0.8", features = ["suspense"] }
