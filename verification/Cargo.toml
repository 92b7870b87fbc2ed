[package]
name = "ssd1306_twi"
version = "0.1.0"
edition = "2021"
publish = false

[dependencies]
bilge = "0.2.0"
