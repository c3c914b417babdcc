[package]
name = "simple_slab"
version = "0.1.0"
edition = "2021"
publish = false

[dependencies]
rand = "0.3"
slab = "0.1"
time = "0.1"
