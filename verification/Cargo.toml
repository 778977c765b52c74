[package]
name = "tauri_runtime_verso"
version = "0.1.0"
edition = "2021"
publish = false

[dependencies]
http = "=1.5.0"
percent-encoding = "=2.3.2"
url = "=2.5.8"
log = "=0.4.34"
raw-window-handle = "=0.6.2"
tao = "=0.37.2"
tauri = { version = "=2.12.5", default-features = false }
tauri-runtime = "=2.12.2"
tauri-utils = "=2.10.2"
gtk = "=0.18.2"
