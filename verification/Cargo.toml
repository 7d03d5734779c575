[package]
name = "semantic_processor"
version = "0.1.0"
edition = "2021"
publish = false

[dependencies]
sophia_api = "0.8"
sophia_turtle = "0.8"
sophia_inmem = "0.8"
sophia_iri = "0.8"
serde = { version = "1", features = ["derive"] }
wasm-bindgen = "0.2"
serde-wasm-bindgen = "0.6"
console_error_panic_hook = "0.1"
