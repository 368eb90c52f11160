[package]
name = "cryptgain"
version = "0.1.0"
edition = "2021"
publish = false

[dependencies]
num-bigint = "=0.4.8"
num-traits = "=0.2.19"
multiversx-sc = "=0.54.6"
multiversx-sc-modules = "=0.54.6"
