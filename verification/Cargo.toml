[package]
name = "econogenesis"
version = "0.1.0"
edition = "2021"
publish = false

[dependencies]
crossterm = "*"
thiserror = "*"
tty-interface = "*"
