[package]
name = "sen5x_rs"
version = "0.1.0"
edition = "2021"
publish = false

[dependencies]
embedded-hal = "1.0"
sensirion-i2c = "*"

[dev-dependencies]
embedded-hal-mock = "*"
