[package]
name = "seify"
version = "0.1.0"
edition = "2021"
publish = false

[dependencies]
nusb = "0.1"
futures-lite = "2"
