[package]
name = "catbox"
version = "0.1.0"
edition = "2021"
publish = false

[dependencies]
bytemuck = "1"
glam = "*"
glow = "*"
log = "0.4"
winit = "0.30"
winit_input_helper = "*"
glutin = "0.32"
glutin-winit = "0.5"
raw-window-handle = "0.6"
wasm-bindgen = "0.2"
web-sys = { version = "0.3", features = ["Window", "Document", "Element", "HtmlCanvasElement", "WebGl2RenderingContext"] }
console_log = "1"
console_error_panic_hook = "0.1"
