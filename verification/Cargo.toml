[package]
name = "zkvm_blocks"
version = "0.1.0"
edition = "2021"

[dependencies]
merlin = "*"
