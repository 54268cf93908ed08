[package]
name = "bran"
version = "0.1.0"
edition = "2021"
publish = false

[dependencies]
yaml-rust = "*"
ansi_term = "*"
libc = "*"
clap = "*"
time = { version = "*", features = ["formatting"] }
