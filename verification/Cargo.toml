[package]
name = "zcl_schema"
version = "0.1.0"
edition = "2021"
publish = false

[dependencies]
convert_case = "0.8"
thiserror = "*"
