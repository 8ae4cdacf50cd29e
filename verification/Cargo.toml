[package]
name = "button_log"
version = "0.1.0"
edition = "2021"
publish = false

[dependencies]
embassy-executor = "*"
embassy-futures = "*"
embassy-time = "*"
embedded-hal-async = "*"
