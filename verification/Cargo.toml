[package]
name = "python_mixin"
version = "0.1.0"
edition = "2021"
publish = false
