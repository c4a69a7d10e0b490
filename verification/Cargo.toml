[package]
name = "planet_tracker"
version = "0.1.0"
edition = "2021"
publish = false

[dependencies]
chrono = { version = "=0.4.45", features = ["serde"] }
enum-iterator = "=1.5.0"
futures = "=0.3.34"
leptos = { version = "=0.6.15", features = ["csr"] }
leptos_meta = { version = "=0.6.15", features = ["csr"] }
leptos-use = "0.13"
reqwest = { version = "=0.11.27", default-features = false, features = ["json"] }
serde = { version = "=1.0.229", features = ["derive"] }
wasm-bindgen = "=0.2.129"
web-sys = { version = "=0.3.106", features = ["Document", "DomRect", "DomRectReadOnly", "Element", "Event", "Geolocation", "HtmlElement", "Location", "MouseEvent", "Navigator", "ResizeObserverEntry", "SvgCircleElement", "Window"] }
