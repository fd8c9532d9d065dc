[package]
name = "qubit-atomic"
version = "0.1.0"
edition = "2021"
publish = false

[dependencies]
arc-swap = "1"
portable-atomic = "1"
