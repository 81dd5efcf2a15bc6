[package]
name = "interrupt_mutex"
version = "0.1.0"
edition = "2021"
publish = false

[dependencies]
interrupts = "*"
lock_api = "*"
