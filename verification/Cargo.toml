[package]
name = "riiload"
version = "0.1.0"
edition = "2021"
publish = false

[dependencies]
dirs = "7.0.0"
structopt = "0.3.26"
