[package]
name = "sys_validate"
version = "0.1.0"
edition = "2021"
publish = false

[dependencies]
futures = "0.3"
holo_hash = { version = "=0.7.1", features = ["hashing", "encoding"] }
tracing = "0.1"
