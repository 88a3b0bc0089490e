[package]
name = "genesis_verify"
version = "0.1.0"
edition = "2021"
publish = false

[dependencies]
bcs = "=0.1.6"
structopt = "=0.3.26"
