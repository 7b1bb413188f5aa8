[package]
name = "crud_todo"
version = "0.1.0"
edition = "2021"
publish = false

[dependencies]
ink = { version = "5" }
