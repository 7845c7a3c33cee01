[package]
name = "nice"
version = "0.1.0"
edition = "2021"
publish = false

[dependencies]
libc = "0.2"
napi = "2"
napi-derive = "2"
windows = { version = "0.52", features = ["Win32_Foundation", "Win32_System_Threading", "Win32_System_WindowsProgramming"] }
