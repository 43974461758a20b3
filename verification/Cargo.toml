[package]
name = "glcore"
version = "0.1.0"
edition = "2021"
publish = false

[dependencies]
console_error_panic_hook = "*"
js-sys = "*"
log = "*"
nalgebra = "*"
nalgebra-glm = "*"
wasm-bindgen = "*"
web-sys = { version = "*", features = [
    "CssStyleDeclaration",
    "Document",
    "Element",
    "HtmlCanvasElement",
    "HtmlElement",
    "WebGl2RenderingContext",
    "WebGlBuffer",
    "WebGlProgram",
    "WebGlShader",
    "WebGlUniformLocation",
    "WebGlVertexArrayObject",
    "Window",
] }
