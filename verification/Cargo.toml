[package]
name = "pinout"
version = "0.1.0"
edition = "2021"

[dependencies]
rp2040-hal = "*"
