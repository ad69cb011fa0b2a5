[package]
name = "vmm"
version = "0.1.0"
edition = "2021"
publish = false

[dependencies]
anyhow = "1"
des = "0.8"
getrandom = "0.3"
libc = "0.2"
slog = "2"
slog-async = "2"
slog-term = "2"
