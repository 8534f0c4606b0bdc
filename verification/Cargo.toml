[package]
name = "engine"
version = "0.1.0"
edition = "2021"
publish = false

[dependencies]
wasm-bindgen = "*"
js-sys = "*"
web-sys = { version = "*", features = [
    "Window",
    "Document",
    "Element",
    "EventTarget",
    "HtmlCanvasElement",
    "HtmlImageElement",
    "WebGlRenderingContext",
    "WebGlBuffer",
    "WebGlProgram",
    "WebGlShader",
    "WebGlTexture",
    "WebGlUniformLocation",
    "KeyboardEvent",
    "MouseEvent",
    "FocusEvent",
    "console",
] }
nalgebra = "*"
downcast-rs = "*"
halfbrown = "*"
hashers = "*"
log = "*"
