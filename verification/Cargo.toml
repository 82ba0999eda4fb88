[package]
name = "tuono_lib"
version = "0.1.0"
edition = "2021"
publish = false

[dependencies]
ssr_rs = "*"
