[package]
name = "svg2png"
version = "0.1.0"
edition = "2021"
publish = false

[dependencies]
resvg = "*"
usvg = "*"
tiny-skia = "*"
wasm-bindgen = "*"
js-sys = "*"
console_error_panic_hook = "*"
