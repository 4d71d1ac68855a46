[package]
name = "cosmic_mapped"
version = "0.1.0"
edition = "2021"
publish = false

[dependencies]
id_tree = "*"
