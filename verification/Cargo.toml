[package]
name = "i2c_drivers"
version = "0.1.0"
edition = "2021"
publish = false

[dependencies]
embedded-hal = "1"
embedded-hal-async = "1"

[dev-dependencies]
embedded-hal-mock = "*"
