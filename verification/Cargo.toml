[package]
name = "object_id"
version = "0.1.0"
edition = "2021"
publish = false

[dependencies]
base64 = "0.22"
hostname = "*"
md5 = "*"
rand = "0.8"
