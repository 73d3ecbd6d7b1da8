[package]
name = "bitsong"
version = "0.1.0"
edition = "2021"
publish = false

[dependencies]
hound = "3"
multimap = "*"
wasm-bindgen = "*"
js-sys = "*"
gloo-console = "*"
web-sys = { version = "*", features = ["AudioContext", "BaseAudioContext", "AudioBuffer", "AudioBufferSourceNode", "AudioScheduledSourceNode", "AudioNode", "AudioDestinationNode", "Blob", "BlobPropertyBag", "Url", "HtmlAnchorElement", "HtmlElement", "Element", "Node", "Document", "Window", "EventTarget"] }
