[package]
name = "power64_backend"
version = "0.1.0"
edition = "2021"
publish = false

[dependencies]
regalloc2 = "=0.15.2"
smallvec = "=1.16.2"
cranelift-control = "=0.135.5"
