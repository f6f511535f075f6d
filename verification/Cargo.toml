[package]
name = "ruwindowman"
version = "0.1.0"
edition = "2021"
publish = false

[dependencies]
cocoa = "0.25"
core-foundation = "0.9"
core-graphics = "0.23"
objc = "0.2"
macos-accessibility-client = "0.0.1"
