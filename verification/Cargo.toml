[package]
name = "driver_core"
version = "0.1.0"
edition = "2021"
publish = false

[dependencies]
redox_syscall = "0.2"
redox_event = "*"
