[package]
name = "free_junc"
version = "1.0.0"
edition = "2021"
publish = false

[dependencies]
junction = "*"
pico-args = "0.4"
walkdir = "2"
winapi = { version = "0.3", features = ["winerror"] }
