[package]
name = "css_bridge"
version = "0.1.0"
edition = "2021"
publish = false

[dependencies]
crossbeam-channel = "*"
rayon = "*"
lightningcss = "1.0.0-alpha.1"
parcel_sourcemap = "*"
