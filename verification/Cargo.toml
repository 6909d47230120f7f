[package]
name = "cxx-qt-build"
version = "0.1.0"
edition = "2021"
publish = false

[dependencies]
cxx-gen = "0.7"
proc-macro2 = "1"
quote = "1"
syn = { version = "2", features = ["full"] }
cc = "1"
