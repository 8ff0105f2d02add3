[package]
name = "idl2rs"
version = "0.1.0"
edition = "2021"

[dependencies]
pest = "2"
pest_derive = "2"
