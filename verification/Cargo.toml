[package]
name = "yarp_meta"
version = "0.1.0"
edition = "2021"
publish = false

[dependencies]
heck = "*"
idcontain = "*"
indexmap = "*"
itertools = "*"
liquid = "=0.25.1"
