[package]
name = "flf"
version = "0.9.9"
edition = "2021"
publish = false

[dependencies]
console_error_panic_hook = "0.1"
js-sys = "0.3"
serde = { version = "1", features = ["derive"] }
serde_json = "1"
serde-wasm-bindgen = "0.6"
wasm-bindgen = "0.2"
wasm-bindgen-futures = "0.4"
web-sys = { version = "0.3", features = ["Window", "Document", "Element", "HtmlElement", "CssStyleDeclaration", "Storage", "Location", "console", "KeyboardEvent", "MouseEvent", "Event", "EventTarget", "HtmlCanvasElement", "CanvasRenderingContext2d", "HtmlImageElement", "HtmlAudioElement", "HtmlMediaElement", "Request", "RequestInit", "RequestMode", "Response", "HtmlInputElement", "HtmlSelectElement", "HtmlTextAreaElement", "Node", "NodeList", "TouchEvent", "Touch", "TouchList", "DomRect", "Performance"] }
