[package]
name = "proxy_agent"
version = "0.1.0"
edition = "2021"
publish = false

[dependencies]
libc = "0.2"
serde = "1"
serde_derive = "1"
serde_json = "1"
tracing = "0.1"
