[package]
name = "ansi_style"
version = "0.1.0"
edition = "2021"
publish = false

[dependencies]
ansi_term = "0.12"
lazy_static = "1"
vte = "0.3"
