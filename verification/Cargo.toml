[package]
name = "l7flow"
version = "0.1.0"
edition = "2021"
publish = false

[dependencies]
prost = "=0.14.4"
httlib-hpack = "=0.1.3"
