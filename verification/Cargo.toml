[package]
name = "passgen"
version = "0.1.0"
edition = "2021"
publish = false

[dependencies]
rand = "=0.9.5"
rand_chacha = "=0.9.0"
seshat-unicode = "*"
arboard = "=3.6.1"
cliclack = "=0.5.6"
