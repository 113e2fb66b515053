[package]
name = "bridgestan"
version = "2.7.0"
edition = "2021"
publish = false

[dependencies]
libloading = "*"
log = "*"
path-absolutize = "*"
dirs = "*"
flate2 = "*"
tar = "*"
ureq = { version = "*", default-features = false }
