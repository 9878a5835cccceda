[package]
name = "wayle_plugin"
version = "0.1.0"
edition = "2021"
publish = false

[dependencies]
serde = { version = "=1.0.229", features = ["derive"] }
serde_json = "=1.0.154"
schemars = "=1.2.3"
wasmtime = "=46.0.3"
tokio = { version = "=1.54.1", features = ["rt-multi-thread", "time", "macros", "sync"] }
tokio-util = "=0.7.20"
futures = "=0.3.34"
tracing = "=0.1.44"
console = "=0.16.6"
relm4 = "=0.11.0"
gdk4 = "=0.11.5"
