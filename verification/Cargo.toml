[package]
name = "yidika"
version = "0.1.0"
edition = "2021"
publish = false

[dependencies]
sysinfo = "0.32"
libloading = "0.8"
