[package]
name = "rpn_calc"
version = "1.0.0"
edition = "2021"
publish = false

[dependencies]
editline = "*"
