[package]
name = "data_uri_converter"
version = "0.1.0"
edition = "2021"
publish = false

[dependencies]
anyhow = "*"
base64 = "*"
clap = { version = "*", features = ["derive"] }
tree_magic_mini = "*"
urlencoding = "*"
