[package]
name = "hook"
version = "0.1.0"
edition = "2021"
publish = false

[dependencies]
rand = "=0.8.8"
bevy = { version = "=0.11.3", default-features = false, features = ["bevy_asset"] }
bevy_xpbd_2d = { version = "=0.2.0", default-features = false, features = ["2d", "f32"] }
wasm-bindgen = "0.2"
web-sys = { version = "0.3", features = ["CssStyleDeclaration", "Document", "DomRect", "Element", "Event", "EventTarget", "HtmlCanvasElement", "HtmlElement", "HtmlMediaElement", "HtmlVideoElement", "Node", "UiEvent", "Window"] }
