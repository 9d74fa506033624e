[package]
name = "binoxxo_board"
version = "0.1.0"
edition = "2021"
publish = false

[dependencies]
binoxxo = "=0.5.0"
wasm-bindgen = "=0.2.129"
console_error_panic_hook = "=0.1.7"

[dependencies.web-sys]
version = "=0.3.106"
features = ["Window", "Document", "Element", "Node", "HtmlTableElement", "HtmlTableRowElement", "HtmlTableCellElement", "HtmlElement", "Event", "EventTarget", "EventListener", "console"]
