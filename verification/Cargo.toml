[package]
name = "zeitstempel"
version = "0.1.0"
edition = "2021"
publish = false

[dependencies]
cfg-if = "1"
libc = "0.2"
once_cell = "1"
winapi = { version = "0.3", features = ["realtimeapiset", "winnt"] }
