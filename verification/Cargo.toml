[package]
name = "port_expander"
version = "0.1.0"
edition = "2021"
publish = false

[dependencies]
critical-section = "1"
embedded-hal = "1"
embedded-hal-async = "1"
heapless = "*"
shared-bus = "*"
