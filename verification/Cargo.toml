[package]
name = "opendal_zig"
version = "0.1.0"
edition = "2021"
publish = false

[dependencies]
jiff = "0.2"
tokio = { version = "1", features = ["rt-multi-thread", "sync"] }
futures = "0.3"
bytes = "1"
http = "1"
libc = "0.2"
serde = { version = "1", features = ["derive"] }
