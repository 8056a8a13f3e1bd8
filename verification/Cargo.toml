[package]
name = "abi_interp"
version = "0.1.0"
edition = "2021"
publish = false

[dependencies]
regalloc2 = "*"
smallvec = "1"
