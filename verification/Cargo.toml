[package]
name = "sumi"
version = "0.1.0"
edition = "2021"
publish = false

[dependencies]
json = "*"
convert_case = "*"
sha3 = "*"
clap = { version = "*", features = ["derive"] }
ethabi = "*"
tinytemplate = "*"
