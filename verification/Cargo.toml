[package]
name = "gc_content"
version = "0.1.0"
edition = "2021"
publish = false

[dependencies]
arrow-array = "60.0.0"
arrow-schema = "60.0.0"
