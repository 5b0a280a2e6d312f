[package]
name = "cranefront"
version = "0.1.0"
edition = "2021"
publish = false

[dependencies]
cranelift = "=0.134.4"
cranelift-module = "=0.134.4"
cranelift-jit = "=0.134.4"
