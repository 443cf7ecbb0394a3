[package]
name = "louis"
version = "0.1.0"
edition = "2021"
publish = false

[dependencies]
log = "0.4"
louis-sys = "*"
semver = "0.9"
widestring = "0.4"
