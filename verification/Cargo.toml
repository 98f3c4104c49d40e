[package]
name = "fixed_size_list"
version = "0.1.0"
edition = "2021"
publish = false

[dependencies]
arrow-buffer = "*"
arrow-data = "*"
arrow-schema = "*"
