[package]
name = "mmio_bus"
version = "0.1.0"
edition = "2021"
publish = false

[dependencies]
mos-6502 = "*"
