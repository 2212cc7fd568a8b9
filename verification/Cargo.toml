[package]
name = "pep_508"
version = "0.1.0"
edition = "2021"
publish = false

[dependencies]
chumsky = "0.9"
