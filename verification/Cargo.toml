[package]
name = "chatterbox-desktop"
version = "0.1.0"
edition = "2021"
publish = false

[dependencies]
base64 = "0.22"
serde = { version = "1", features = ["derive"] }
serde_json = "1"
tokio = { version = "1", features = ["process", "io-util", "sync", "time", "rt", "macros", "fs"] }
tempfile = "3"
dioxus = { version = "0.6", features = ["web"] }
wasm-bindgen = "0.2"
wasm-bindgen-futures = "0.4"
js-sys = "0.3"
web-sys = { version = "0.3", features = ["Window", "Navigator", "MediaDevices", "MediaStreamConstraints", "MediaStream", "MediaStreamTrack", "HtmlAudioElement", "HtmlMediaElement"] }
serde-wasm-bindgen = "0.6"
console_error_panic_hook = "0.1"
