[package]
name = "fileutil"
version = "0.1.0"
edition = "2021"
publish = false

[dependencies]
url = "*"
uuid = { version = "*", features = ["v4"] }
filetime = "*"
