[package]
name = "gemm_adapter"
version = "0.1.0"
edition = "2021"
publish = false

[dependencies]
matrixmultiply = "*"
cblas = "*"
intel-mkl-src = "*"
