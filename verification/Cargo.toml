[package]
name = "messagio"
version = "0.1.0"
edition = "2021"
publish = false

[dependencies]
colored = "2"
once_cell = "1"
rodio = "0.19"
