[package]
name = "tilde_expand"
version = "0.1.0"
edition = "2021"
publish = false

[dependencies]
dirs-sys = "*"
uzers = "*"
thiserror = "*"
