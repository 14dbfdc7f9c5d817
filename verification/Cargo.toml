[package]
name = "constance"
version = "0.1.0"
edition = "2021"
publish = false

[dependencies]
register = "=1.0.2"
cortex-m = "=0.7.10"
cortex-m-rt = "=0.7.7"
