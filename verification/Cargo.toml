[package]
name = "particle_cube"
version = "0.1.0"
edition = "2021"
publish = false

[dependencies]
wgpu = "0.19"
wasm-bindgen = "0.2"
wasm-bindgen-futures = "0.4"
web-sys = { version = "0.3", features = ["Window", "Document", "Element", "HtmlElement", "HtmlCanvasElement", "HtmlInputElement", "Node", "EventTarget", "Event", "UiEvent", "MouseEvent", "WheelEvent"] }
log = "0.4"
console_log = "1"
console_error_panic_hook = "0.1"
