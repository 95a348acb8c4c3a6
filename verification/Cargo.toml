[package]
name = "clogs"
version = "0.1.0"
edition = "2021"
publish = false

[dependencies]
glsp = "0.2"
miniquad = "0.2"
