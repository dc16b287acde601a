[package]
name = "xochron"
version = "0.1.0"
edition = "2021"
publish = false

[dependencies]
heapless = "0.8"
chrono = "*"
embedded-hal = "0.2"
hrs3300 = "*"
embedded-graphics = "0.6"
