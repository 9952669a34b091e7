[package]
name = "area_25_5"
version = "0.1.0"
edition = "2021"
publish = false

[dependencies]
chrono = "0.4"
rand = "0.8"
rand_chacha = "0.3"
