[package]
name = "execwatch"
version = "0.1.0"
edition = "2021"
publish = false

[dependencies]
ebpf-kern = { version = "=0.2.0", features = ["macros"] }
ebpf-user = { version = "=0.2.0", features = ["macros"] }
