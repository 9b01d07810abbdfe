[package]
name = "storagenv"
version = "0.1.0"
edition = "2021"
publish = false

[dependencies]
clipboard = "0.5"
rustyline = "*"
