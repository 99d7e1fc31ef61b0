[package]
name = "umcg"
version = "0.1.0"
edition = "2021"
publish = false

[dependencies]
backtrace = "0.3"
crossbeam-queue = "0.3"
libc = "0.2"
log = "0.4"
uuid = { version = "1", features = ["v4"] }
