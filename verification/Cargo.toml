[package]
name = "rust_ndarray_test"
version = "0.1.0"
edition = "2021"
publish = false

[dependencies]
ndarray = { version = "*", features = ["approx"] }
approx = "*"
