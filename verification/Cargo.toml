[package]
name = "windsend"
version = "0.1.0"
edition = "2021"
publish = false

[dependencies]
chrono = "0.4"
image = "0.24"
tracing = "0.1"

[dependencies.tokio]
version = "1"
default-features = false
features = ["fs", "io-util", "rt", "sync", "macros"]
