[package]
name = "gpu_lifecycle"
version = "0.1.0"
edition = "2021"
publish = false

[dependencies]
wgpu = "=22.1.0"
winit = "=0.30.13"
pollster = "=0.3.0"
web-time = "=1.1.0"
flume = "=0.11.1"
image = { version = "=0.25.10", default-features = false, features = ["jpeg", "png"] }
tokio = { version = "=1.54.1", features = ["rt", "macros"] }
anyhow = "=1.0.104"
futures = "0.3"
wasm-bindgen = "=0.2.129"
wasm-bindgen-futures = "=0.4.79"
web-sys = { version = "=0.3.106", features = ["console", "Document", "Element", "HtmlCanvasElement", "Window"] }
console_error_panic_hook = "0.1"
