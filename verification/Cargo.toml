[package]
name = "shared_counter"
version = "0.1.0"
edition = "2021"
publish = false

[dependencies]
anyhow = "*"
lazy_static = "*"
libc = "*"
open62541-ffi = "=1.4.0-rc2"
signal-hook = "*"
