[package]
name = "cmos"
version = "0.1.0"
edition = "2021"
publish = false

[dependencies]
cpuio = "*"
