[package]
name = "ws_rpc_client"
version = "0.1.0"
edition = "2021"
publish = false

[dependencies]
uuid = { version = "1", features = ["v4"] }
wasm-bindgen = "*"
wasm-bindgen-futures = "*"
js-sys = "*"
web-sys = { version = "*", features = ["WebSocket", "MessageEvent", "ErrorEvent", "BinaryType"] }
serde-wasm-bindgen = "*"
serde = { version = "1", features = ["derive"] }
rmp-serde = "*"
log = "*"
console_log = "*"
