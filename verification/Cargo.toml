[package]
name = "async_executors"
version = "0.1.0"
edition = "2021"
publish = false

[dependencies]
futures-util = { version = "0.3", default-features = false, features = ["std", "channel"] }
futures-executor = { version = "0.3" }
wasm-bindgen-futures = { version = "0.4" }

[dev-dependencies]
futures = { version = "0.3" }
