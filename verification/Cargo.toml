[package]
name = "echo_guest"
version = "0.1.0"
edition = "2021"
publish = false

[dependencies]
wapc-guest = "*"
