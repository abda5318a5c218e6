[package]
name = "write_atomic"
version = "0.7.0"
edition = "2021"
publish = false

[dependencies]
filetime = "0.2"
tempfile = "3"
