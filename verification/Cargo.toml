[package]
name = "rkill"
version = "0.1.0"
edition = "2021"
publish = false

[dependencies]
colored = "*"
futures = "0.3"
netstat2 = "*"
seahorse = "1"
smol = "*"
