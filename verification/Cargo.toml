[package]
name = "menubar"
version = "0.1.0"
edition = "2021"
publish = false

[dependencies]
bevy = { version = "=0.18.1", default-features = false, features = ["std"] }
objc2 = "=0.6.5"
objc2-app-kit = "=0.3.2"
objc2-core-foundation = "=0.3.2"
objc2-foundation = "=0.3.2"
objc2-quartz-core = "=0.3.2"
tracing = "=0.1.44"
