[package]
name = "dt_sequences"
version = "0.1.0"
edition = "2021"
publish = false

[dependencies]
dfdx = { version = "0.13", default-features = false, features = ["std"] }
num-traits = "0.2"
rand_distr = "0.4"
