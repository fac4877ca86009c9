[package]
name = "ironhold"
version = "0.1.0"
edition = "2021"
publish = false

[dependencies]
bevy_ecs = { version = "*", default-features = false }
bytemuck = { version = "*", features = ["derive"] }
chrono = "*"
clap = { version = "*", features = ["derive"] }
console_error_panic_hook = "*"
eframe = { version = "*", default-features = false, features = ["wgpu"] }
futures-util = "*"
glam = "*"
gltf = "*"
js-sys = "*"
ron = "*"
serde = { version = "*", features = ["derive"] }
serde_json = "*"
thiserror = "*"
tiny_http = "*"
tokio = { version = "*", features = ["rt", "net", "time"] }
tokio-tungstenite = "*"
walkdir = "*"
wasm-bindgen = "*"
wasm-bindgen-futures = "*"
web-sys = { version = "*", features = ["Window", "Document", "Element", "HtmlCanvasElement", "console", "Location", "WebSocket", "MessageEvent", "Blob", "FileReader", "Event", "BinaryType", "Response"] }
wgpu = { version = "*", default-features = false, features = ["webgpu", "wgsl"] }
