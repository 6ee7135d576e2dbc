[package]
name = "search_expr"
version = "0.1.0"
edition = "2021"

[dependencies]
itertools = "0.10"
regex = "1"
