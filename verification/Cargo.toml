[package]
name = "precompiles"
version = "0.1.0"
edition = "2021"
publish = false

[dependencies]
ark-bn254 = "0.4"
ark-ec = "0.4"
ark-ff = "0.4"
ark-serialize = "0.4"
ark-std = "0.4"
bincode = "1.3"
ethabi = "18.0"
ethereum-types = "0.14"
num-bigint = "0.4"
sha3 = "0.10"
