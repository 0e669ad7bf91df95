[package]
name = "portfolio"
version = "0.1.0"
edition = "2021"
publish = false

[dependencies]
gloo-events = "0.2"
gloo-net = "0.6"
gloo-timers = "0.3"
js-sys = "0.3"
log = "0.4"
serde = { version = "1", features = ["derive"] }
serde_json = "1"
tracing = "0.1"
tracing-subscriber = "0.3"
tracing-web = "0.1"
wasm-bindgen = "0.2"
wasm-bindgen-futures = "0.4"
web-sys = { version = "0.3", features = ["Window", "Document", "Element", "HtmlElement", "HtmlHeadElement", "Node", "HtmlCanvasElement", "HtmlInputElement", "HtmlTextAreaElement", "MouseEvent", "Event", "EventTarget", "console"] }
yew = { version = "0.21", features = ["csr"] }
yew-router = "0.18"
