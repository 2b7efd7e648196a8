[package]
name = "peace_jit"
version = "0.1.0"
edition = "2021"
publish = false

[dependencies]
libc = "0.2"
