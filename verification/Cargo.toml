[package]
name = "iphoto_catalog"
version = "0.1.0"
edition = "2021"
publish = false

[dependencies]
filetime = "0.2"
serde = "1.0"
serde_derive = "1.0"
