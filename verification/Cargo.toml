[package]
name = "kernel_core"
version = "0.1.0"
edition = "2021"
publish = false

[dependencies]
x86 = "0.52"
spin = "0.9"
lazy_static = "1.4"
