[package]
name = "ffgl_gpu"
version = "0.1.0"
edition = "2021"
publish = false

[dependencies]
gl = "*"
gl_loader = "*"
anyhow = "*"
