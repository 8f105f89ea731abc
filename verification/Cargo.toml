[package]
name = "zcache"
version = "0.1.0"
edition = "2021"
publish = false

[dependencies]
once_cell = "1"
thiserror = "1"
