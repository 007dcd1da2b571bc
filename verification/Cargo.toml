[package]
name = "ban_untagged_todo"
version = "0.1.0"
edition = "2021"
publish = false

[dependencies]
regex = "1"
swc_common = "*"
swc_ecma_ast = "*"
