[package]
name = "etcd_error"
version = "0.1.0"
edition = "2021"
publish = false

[dependencies]
http = "*"
tonic = { version = "*", default-features = false, features = ["transport"] }
