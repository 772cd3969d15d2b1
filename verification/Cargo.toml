[package]
name = "ex_sctp"
version = "0.1.0"
edition = "2021"
publish = false

[dependencies]
sctp-proto = "=0.10.7"
bytes = "=1.12.1"
rustler = "=0.36.2"
