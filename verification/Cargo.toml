[package]
name = "tunnelforge_core"
version = "0.1.0"
edition = "2021"
publish = false

[dependencies]
ring = "=0.17.14"
subtle = "=2.6.1"
