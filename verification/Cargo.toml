[package]
name = "shogo"
version = "0.1.0"
edition = "2021"
publish = false

[dependencies]
wasm-bindgen = "=0.2.129"
js-sys = "=0.3.106"
web-sys = { version = "=0.3.106", features = [
    "Window",
    "Document",
    "Element",
    "HtmlElement",
    "HtmlCanvasElement",
    "OffscreenCanvas",
    "WebGl2RenderingContext",
    "WebGlProgram",
    "WebGlShader",
    "WebGlBuffer",
    "WebGlUniformLocation",
    "WebGlTexture",
    "WebGlVertexArrayObject",
    "WebGlContextAttributes",
    "MouseEvent",
    "MessageEvent",
    "Event",
    "EventTarget",
    "Worker",
    "WorkerOptions",
    "WorkerType",
    "DedicatedWorkerGlobalScope",
    "WorkerGlobalScope",
    "Performance",
    "DomRect",
    "ImageData",
] }
wasm-bindgen-futures = "=0.4.79"
futures = "=0.3.34"
gloo = { version = "=0.11.0", features = ["futures"] }
serde = { version = "=1.0.229", features = ["derive"] }
ws_stream_wasm = "=0.7.5"
axgeom = "=1.13.2"
byte-slice-cast = "=1.2.3"
