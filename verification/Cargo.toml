[package]
name = "haxe_atomic"
version = "0.1.0"
edition = "2021"

[dependencies]
pyo3 = "0.23"
