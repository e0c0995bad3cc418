[package]
name = "wiggle"
version = "0.1.0"
edition = "2021"
publish = false

[dependencies]
heck = "0.3"
witx = "0.8"
proc-macro2 = "1"
quote = "1"
thiserror = "1"
proptest = "1"
