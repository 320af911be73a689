[package]
name = "bm1397_ll"
version = "0.1.0"
edition = "2021"
publish = false

[dependencies]
defmt = "0.3"
