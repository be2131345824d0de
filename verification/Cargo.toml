[package]
name = "workflow_websocket"
version = "0.1.0"
edition = "2021"
publish = false

[dependencies]
async-std = "1"
async-trait = "0.1"
cfg-if = "1"
futures-util = { version = "0.3", features = ["sink"] }
js-sys = "0.3"
manual_future = "0.1"
thiserror = "1"
tokio = { version = "1", features = ["full"] }
tokio-tungstenite = "*"
triggered = "0.1"
tungstenite = "*"
wasm-bindgen = "0.2"
web-sys = { version = "0.3", features = ["WebSocket", "MessageEvent", "CloseEvent", "ErrorEvent", "BinaryType"] }
workflow-core = "*"
workflow-log = "*"
