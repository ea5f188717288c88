[package]
name = "fileserve"
version = "0.1.0"
edition = "2021"
publish = false

[dependencies]
clap = { version = "4", features = ["derive"] }
env_logger = "0.11"
http-body-util = "0.1"
hyper = { version = "1", features = ["http1", "server"] }
hyper-util = { version = "0.1", features = ["tokio"] }
log = "0.4"
mime_guess = "2"
tokio = { version = "1", features = ["fs", "macros", "net", "rt-multi-thread"] }
