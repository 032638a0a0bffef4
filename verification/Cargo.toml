[package]
name = "cw_skeleton"
version = "0.1.0"
edition = "2021"
publish = false

[dependencies]
cosmwasm-std = "2"
cw2 = "2"
