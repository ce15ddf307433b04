[package]
name = "ink_allocator"
version = "0.1.0"
edition = "2021"

[dependencies]
cfg-if = "1.0"
