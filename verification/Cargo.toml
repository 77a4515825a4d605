[package]
name = "ki_reader"
version = "0.1.0"
edition = "2021"
publish = false

[dependencies]
ammonia = "=4.2.4"
arboard = "3"
axum = "=0.8.9"
html2md = "=0.2.17"
js-sys = "0.3"
local-ip-address = "*"
log = "=0.4.34"
markdown = "=1.0.0"
readability = { version = "=0.3.0", default-features = false }
reqwest = { version = "0.12", default-features = false, features = ["rustls-tls"] }
serde = { version = "=1.0.229", features = ["derive"] }
serde-wasm-bindgen = "0.6"
serde_json = "=1.0.154"
sha1 = "=0.10.7"
tokio = { version = "=1.54.1", features = ["macros", "net", "rt-multi-thread"] }
tower-http = { version = "=0.6.11", features = ["cors"] }
url = "=2.5.8"
wasm-bindgen = "0.2"
wasm-bindgen-futures = "0.4"
web-sys = { version = "0.3", features = ["Headers", "HtmlInputElement", "HtmlTextAreaElement", "Request", "RequestInit", "Response", "Window", "console"] }
yew = { version = "0.21", features = ["csr"] }
