[package]
name = "view_syntax"
version = "0.1.0"
edition = "2021"
publish = false

[dependencies]
syn = "=2.0.119"

[dev-dependencies]
proc-macro2 = "=1.0.107"
