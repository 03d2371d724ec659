[package]
name = "fxfs_fuse"
version = "0.1.0"
edition = "2021"
publish = false

[dependencies]
fuse3 = { version = "0.6", features = ["tokio-runtime", "unprivileged"] }
libc = "0.2"
anyhow = "1"
tokio = { version = "1", features = ["sync", "rt", "macros"] }
async-trait = "0.1"
bytes = "1"
futures-util = "0.3"
tracing = "0.1"
tracing-subscriber = "0.3"
