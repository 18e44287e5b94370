[package]
name = "isolate_host"
version = "0.1.0"
edition = "2021"
publish = false

[dependencies]
anyhow = "1"
chrono = "0.4"
colored = "2"
envfile = "0.2"
flume = "0.10"
hyper = { version = "0.14", features = ["server", "http1", "tcp", "runtime"] }
log = { version = "0.4", features = ["std"] }
notify = "5"
tokio = { version = "1", features = ["rt-multi-thread", "macros", "sync"] }
