[package]
name = "buds_bt"
version = "0.1.0"
edition = "2021"
publish = false

[dependencies]
blurz = "*"
bluetooth-serial-port-async = "*"
