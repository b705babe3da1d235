[package]
name = "crusty_chip"
version = "0.1.0"
edition = "2021"
publish = false

[dependencies]
rand = "*"
getopts = "*"
