[package]
name = "ctru"
version = "0.1.0"
edition = "2021"
publish = false

[dependencies]
widestring = "1"
libc = "0.2"
macaddr = "1"
