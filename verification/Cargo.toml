[package]
name = "subtile"
version = "0.1.0"
edition = "2021"
publish = false

[dependencies]
cast = "0.3"
regex = "1"
thiserror = "1"
