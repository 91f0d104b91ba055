[package]
name = "cyberkernel"
version = "0.1.0"
edition = "2021"
publish = false

[dependencies]
bitflags = "2"
hashbrown = "0.14"
spin = "0.9"
