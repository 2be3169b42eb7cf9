[package]
name = "sixtyfps-rendering-backend-gl"
version = "0.0.6"
edition = "2021"
publish = false

[dependencies]
by_address = "=1.2.1"
cocoa = "=0.24.1"
copypasta = { version = "=0.7.1", default-features = false, features = ["x11"] }
euclid = "=0.22.14"
femtovg = "=0.1.3"
glutin = { version = "=0.26.0", default-features = false, features = ["x11"] }
image = { version = "=0.23.14", default-features = false, features = ["png", "jpeg"] }
imgref = "=1.12.3"
lyon_path = "=0.17.7"
rgb = "=0.8.53"
sixtyfps-corelib = "=0.0.6"
wasm-bindgen = "=0.2.129"
web-sys = { version = "=0.3.106", features = ["Document", "Element", "Event", "EventTarget", "HtmlCanvasElement", "HtmlImageElement", "Window"] }
winit = { version = "=0.24.0", default-features = false, features = ["x11"] }

[dev-dependencies]
generational-arena = "=0.2.9"
