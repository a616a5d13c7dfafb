[package]
name = "brp_relay"
version = "0.1.0"
edition = "2021"
publish = false

[dependencies]
async-channel = "=2.5.0"
bevy_app = "=0.16.1"
bevy_ecs = "=0.16.1"
bevy_log = "=0.16.1"
bevy_remote = { version = "=0.16.1", default-features = false }
js-sys = "=0.3.106"
serde_json = { version = "=1.0.154", features = ["preserve_order"] }
wasm-bindgen = "=0.2.129"
wasm-bindgen-futures = "=0.4.79"
web-sys = { version = "=0.3.106", features = ["BinaryType", "CloseEvent", "ErrorEvent", "Location", "MessageEvent", "WebSocket", "Window"] }
