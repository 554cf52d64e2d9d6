[package]
name = "sweetalert"
version = "0.1.0"
edition = "2021"
publish = false

[dependencies]
leptos = { version = "0.6", features = ["csr"] }
leptos_dom = "0.6"
web-sys = { version = "0.3", features = ["Window", "Document", "Element", "HtmlElement", "HtmlCollection", "NodeList", "Node", "CssStyleDeclaration", "MouseEvent", "KeyboardEvent", "EventTarget"] }
log = "0.4"
console_log = "*"
console_error_panic_hook = "0.1"
