[package]
name = "face_swap"
version = "0.1.0"
edition = "2021"
publish = false

[dependencies]
anchor-lang = "=0.32.2"
primitive-types = "=0.14.0"
