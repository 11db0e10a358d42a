[package]
name = "fonthelper"
version = "0.1.0"
edition = "2021"
publish = false

[dependencies]
simple-server = "*"
libfonthelper = "*"
log = "*"
