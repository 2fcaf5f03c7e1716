[package]
name = "video_search"
version = "0.1.0"
edition = "2021"
publish = false

[dependencies]
serde = { version = "1", features = ["derive"] }
gloo-net = "0.2"
wasm-bindgen = "0.2"
wasm-bindgen-futures = "0.4"
web-sys = { version = "0.3", features = ["console", "Event", "EventTarget", "HtmlInputElement", "InputEvent"] }
yew = "0.19"
