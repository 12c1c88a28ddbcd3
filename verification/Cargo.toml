[package]
name = "rust_comm"
version = "0.1.0"
edition = "2021"
publish = false
