[package]
name = "oholeo"
version = "0.1.0"
edition = "2021"
publish = false

[dependencies]
hex = "0.4"
leptos = { version = "0.5", features = ["csr"] }
leptos_router = { version = "0.5", features = ["csr"] }
wasm-bindgen = "0.2"
wasm-bindgen-futures = "0.4"
js-sys = "0.3"
web-sys = { version = "0.3", features = ["Window", "Navigator", "Document", "Element", "DomTokenList", "EventTarget", "Event", "MouseEvent", "DragEvent", "DataTransfer", "HtmlCanvasElement"] }
serde = { version = "1", features = ["derive"] }
serde-wasm-bindgen = "0.6"
plotters = { version = "0.3", default-features = false, features = ["line_series"] }
plotters-canvas = "0.3"
