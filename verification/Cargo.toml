[package]
name = "editorsql"
version = "0.1.0"
edition = "2021"
publish = false

[dependencies]
tiberius = { version = "=0.12.3", default-features = false, features = ["tds73", "rustls", "winauth"] }
tokio = { version = "=1.54.1", features = ["net", "sync", "rt", "macros"] }
tokio-util = { version = "=0.7.20", features = ["compat"] }
futures-util = "=0.3.34"
serde = { version = "=1.0.229", features = ["derive"] }
serde-wasm-bindgen = "=0.6.5"
wasm-bindgen = "=0.2.130"
wasm-bindgen-futures = "0.4"
