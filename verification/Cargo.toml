[package]
name = "tray_shell"
version = "0.1.0"
edition = "2021"
publish = false

[dependencies]
core-foundation = "0.9"
cocoa = "0.24"
objc = "0.2"
