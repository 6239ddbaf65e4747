[package]
name = "diffsol_py"
version = "0.1.0"
edition = "2021"
publish = false

[dependencies]
pyo3 = "0.21"
numpy = "0.21"
nalgebra = "*"
