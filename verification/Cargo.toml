[package]
name = "alertangel"
version = "0.1.0"
edition = "2021"
publish = false

[dependencies]
ratatui = { version = "0.29.0", default-features = false }
ratzilla = "0.1.0"
wasm-bindgen = "*"
web-sys = { version = "*", features = ["Window", "Document", "Element", "HtmlElement", "CssStyleDeclaration", "Event", "EventTarget", "KeyboardEvent", "MouseEvent", "console"] }
