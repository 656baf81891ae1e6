[package]
name = "zk_elgamal"
version = "0.1.0"
edition = "2021"
publish = false

[dependencies]
ark-ec = "*"
ark-ff = "*"
ark-serialize = "*"
ark-std = "*"
ark-ed-on-bn254 = "*"
rand = "*"
