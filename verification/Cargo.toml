[package]
name = "field_by_field"
version = "0.1.0"
edition = "2021"
publish = false

[dependencies]
syn = "2"
