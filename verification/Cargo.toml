[package]
name = "serve_core"
version = "0.1.0"
edition = "2021"
publish = false

[dependencies]
anyhow = "=1.0.104"
async-trait = "=0.1.92"
bytes = "=1.12.1"
clap = { version = "=4.6.7", features = ["derive"] }
http = "=1.5.0"
http-body-util = "=0.1.5"
hyper = { version = "=1.12.0", features = ["http1", "server"] }
tokio = { version = "=1.53.2", features = ["rt-multi-thread", "net", "time", "signal", "sync", "macros", "io-util"] }
wasmtime = { version = "=47.0.4", default-features = false, features = ["runtime", "component-model", "async", "pooling-allocator"] }
wasmtime-wasi = "=47.0.4"
wasmtime-wasi-http = "=47.0.4"

[dev-dependencies]
http = "=1.5.0"
