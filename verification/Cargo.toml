[package]
name = "med_qrng"
version = "0.1.0"
edition = "2021"
publish = false

[dependencies]
uuid = "1"
anyhow = "1"
