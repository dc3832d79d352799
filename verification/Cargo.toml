[package]
name = "litecraft_resources"
version = "0.1.0"
edition = "2021"
publish = false

[dependencies]
threadpool = "*"
glium = { version = "*", default-features = false }
