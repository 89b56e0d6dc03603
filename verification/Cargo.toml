[package]
name = "slashsum"
version = "0.1.0"
edition = "2021"
publish = false

[dependencies]
crc = "3"
md5 = "0.7"
sha1 = "0.10"
sha2 = "0.10"
crossbeam-channel = "0.5"
