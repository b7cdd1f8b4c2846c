[package]
name = "pups2"
version = "0.1.0"
edition = "2021"
publish = false

[dependencies]
bitvec = "=1.1.1"
argh = "=0.1.19"
elf = "=0.7.4"
minifb = "*"
