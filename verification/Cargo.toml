[package]
name = "igb"
version = "0.1.0"
edition = "2021"
publish = false

[dependencies]
dma-api = { version = "=0.2.2", features = ["alloc"] }
