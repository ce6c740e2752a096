[package]
name = "sht4x"
version = "0.2.0"
edition = "2021"
publish = false

[dependencies]
embedded-hal = "=1.0.0"
embedded-hal-async = "=1.0.0"
fixed = "=1.31.0"
sensirion-i2c = { version = "=0.4.0", features = ["embedded-hal-async"] }
