[package]
name = "mat73"
version = "0.1.0"
edition = "2021"
publish = false

[dependencies]
hdf5 = "0.8"
nalgebra = { version = "0.32", default-features = false, features = ["std"] }
