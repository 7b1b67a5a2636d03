[package]
name = "irq_core"
version = "0.1.0"
edition = "2021"
publish = false

[dependencies]
xous = "*"
