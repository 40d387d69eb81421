[package]
name = "reaper_test"
version = "0.1.0"
edition = "2021"
publish = false

[dependencies]
reaper-low = "*"
reaper-medium = "*"
