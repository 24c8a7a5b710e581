[package]
name = "fsdr_blocks"
version = "0.1.0"
edition = "2021"
publish = false

[dependencies]
async-trait = "0.1"
bytes = "1"
futuresdr = "0.0.37"
