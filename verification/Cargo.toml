[package]
name = "circom_prover"
version = "0.1.0"
edition = "2021"
publish = false

[dependencies]
rug = "*"
colored = "*"
num-bigint = "*"
