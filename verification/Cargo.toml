[package]
name = "python_linux_keyutils"
version = "0.1.0"
edition = "2021"
publish = false

[dependencies]
linux-keyutils = "*"
zeroize = "*"
pyo3 = "*"
