[package]
name = "del_geo_fix"
version = "0.1.0"
edition = "2021"
publish = false

[dependencies]
nalgebra = "*"
rand = "*"

[dev-dependencies]
rand_chacha = "*"
