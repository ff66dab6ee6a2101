[package]
name = "rrtos"
version = "0.1.0"
edition = "2021"
publish = false

[dependencies]
cortex-m = "*"
cortex-m-rt = "*"
embedded-hal = "*"
rp2040-boot2 = "*"
rp2040-hal = "*"
