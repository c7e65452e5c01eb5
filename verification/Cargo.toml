[package]
name = "wasi_http_bridge"
version = "0.1.0"
edition = "2021"
publish = false

[dependencies]
anyhow = "*"
http = "*"
http-body = "*"
http-body-util = "*"
hyper = "*"
tokio = { version = "*", features = ["rt-multi-thread", "macros", "sync"] }
wasmtime = "=47.0.4"
wasmtime-wasi = "=47.0.4"
wasmtime-wasi-http = "=47.0.4"
