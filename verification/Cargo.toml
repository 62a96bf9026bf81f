[package]
name = "wasm-opt"
version = "0.1.0"
edition = "2021"
publish = false

[dependencies]
anyhow = "1"
cxx = "1"
libc = "0.2"
thiserror = "1"
