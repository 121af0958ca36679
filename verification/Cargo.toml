[package]
name = "bounded_range"
version = "0.1.0"
edition = "2021"

[dependencies]
time = "0.1"
