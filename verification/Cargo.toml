[package]
name = "libherald"
version = "0.1.0"
edition = "2021"
publish = false

[dependencies]
im = "15"
im-rc = "15"
crossbeam-channel = "0.4"
dashmap = "*"
lazy_static = "1"
libc = "0.2"
parking_lot = "0.10"
