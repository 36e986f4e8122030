[package]
name = "sprite_anim"
version = "0.1.0"
edition = "2021"
publish = false

[dependencies]
anyhow = "*"
console_error_panic_hook = "*"
futures = "*"
serde = { version = "*", features = ["derive"] }
serde_json = "*"
serde-wasm-bindgen = "*"
wasm-bindgen = "*"
wasm-bindgen-futures = "*"
web-sys = { version = "*", features = ["console", "Window", "Document", "Element", "HtmlCanvasElement", "HtmlImageElement", "CanvasRenderingContext2d", "Response"] }
