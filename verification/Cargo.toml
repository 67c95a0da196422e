[package]
name = "diskwatch"
version = "0.1.0"
edition = "2021"
publish = false

[dependencies]
anyhow = "*"
flume = "*"
libc = "*"
objc2-core-foundation = "*"
objc2-disk-arbitration = "*"
tracing = "*"
