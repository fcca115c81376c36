[package]
name = "toolapi"
version = "0.1.0"
edition = "2021"
publish = false

[dependencies]
axum = { version = "=0.8.9", features = ["ws"] }
futures = "=0.3.34"
futures-channel = "=0.3.34"
futures-core = "=0.3.34"
js-sys = "=0.3.106"
num-complex = { version = "=0.4.6", features = ["serde"] }
pyo3 = { version = "=0.30.1", features = ["num-complex"] }
rmp-serde = "=1.3.1"
ruzstd = "0.9"
serde = { version = "=1.0.229", features = ["derive"] }
thiserror = "=2.0.21"
tokio = { version = "=1.54.1", features = ["macros", "net", "rt-multi-thread", "sync"] }
tungstenite = "=0.30.0"
wasm-bindgen = "=0.2.129"
web-sys = { version = "=0.3.106", features = ["BinaryType", "CloseEvent", "ErrorEvent", "Event", "MessageEvent", "WebSocket"] }
ws_stream_wasm = "=0.7.5"
