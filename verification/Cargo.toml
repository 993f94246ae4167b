[package]
name = "cuckoo_miner"
version = "0.1.0"
edition = "2021"
publish = false

[dependencies]
rand = "*"
cursive = "*"
