[package]
name = "kerbo"
version = "0.1.0"
edition = "2021"
publish = false

[dependencies]
regex = "1"
serial = "0.4"
rscam = "0.5"
docopt = "1"
