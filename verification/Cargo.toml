[package]
name = "jlink_probe"
version = "0.1.0"
edition = "2021"
publish = false

[dependencies]
jaylink = "*"
log = "*"
thiserror = "*"
