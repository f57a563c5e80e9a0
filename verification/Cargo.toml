[package]
name = "ifc_lite_core"
version = "0.1.0"
edition = "2021"
publish = false

[dependencies]
comp-cat-rs = "*"
memchr = "2"
nom = "7"
