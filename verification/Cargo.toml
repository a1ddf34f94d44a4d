[package]
name = "daynotes"
version = "0.1.0"
edition = "2021"
publish = false

[dependencies]
chrono = "=0.4.45"
regex = "=1.13.1"
hyper = { version = "=1.11.1", features = ["http1", "server"] }
hyper-util = { version = "=0.1.21", features = ["tokio"] }
http-body-util = "=0.1.5"
tokio = { version = "=1.53.2", features = ["rt-multi-thread", "net", "macros"] }
