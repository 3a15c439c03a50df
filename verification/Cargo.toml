[package]
name = "scap"
version = "0.1.0"
edition = "2021"
publish = false

[dependencies]
sysinfo = "*"
core-graphics = "*"
screencapturekit = "0.2"
