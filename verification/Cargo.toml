[package]
name = "jmon_rs"
version = "0.1.5"
edition = "2021"
publish = false

[dependencies]
byteorder = "1.5"
memmap2 = "0.9"
