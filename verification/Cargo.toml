[package]
name = "fsevent_watcher"
version = "0.1.0"
edition = "2021"
publish = false

[dependencies]
fsevent = "=0.2.17"
fsevent-sys = "=0.1.6"
libc = "*"
