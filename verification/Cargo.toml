[package]
name = "bl602_app"
version = "0.1.0"
edition = "2021"
publish = false

[dependencies]
bl602-sdk = "=0.0.6"
heapless = "=0.7.17"
rhai = "=1.27.0"
wee_alloc = "=0.4.5"
