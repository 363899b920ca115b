[package]
name = "mdtouch"
version = "0.1.0"
edition = "2021"
publish = false

[dependencies]
filetime = "0.2"
