[package]
name = "hedera"
version = "0.1.0"
edition = "2021"
publish = false

[dependencies]
chrono = "0.4"
colored = "2"
hex = "0.4"
itertools = "0.10"
libc = "0.2"
openssl = "0.10"
protobuf = "2"
structopt = "0.3"
