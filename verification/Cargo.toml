[package]
name = "iron_oxide"
version = "0.1.0"
edition = "2021"
publish = false

[dependencies]
objc = "0.2"
raw-window-handle = "0.3"
log = "0.4"
