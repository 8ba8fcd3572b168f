[package]
name = "glchecklib"
version = "0.1.0"
edition = "2021"
publish = false

[dependencies]
gl = "0.14"
glutin = "0.29"
