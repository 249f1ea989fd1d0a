[package]
name = "emc2301"
version = "0.1.0"
edition = "2021"
publish = false

[dependencies]
i2c-linux = "*"
