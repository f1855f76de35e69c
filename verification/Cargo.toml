[package]
name = "epoch_timer"
version = "0.1.0"
edition = "2021"
publish = false

[dependencies]
async-std = "1"
s2n-quic-core = "*"
