[package]
name = "ns_client"
version = "0.1.0"
edition = "2021"
publish = false

[dependencies]
serde_json = "*"
rand = "*"
serde = { version = "*", features = ["derive"] }
once_cell = "*"
wasm-bindgen = "*"
js-sys = "*"
wasm-bindgen-futures = "*"
gloo-net = "*"
web-sys = { version = "*", features = ["Window", "Document", "Element", "Node", "HtmlInputElement", "WebSocket", "MessageEvent", "console"] }
