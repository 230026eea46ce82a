[package]
name = "marvin"
version = "0.1.0"
edition = "2021"
publish = false

[dependencies]
core-foundation = "0.10.1"
core-graphics = "0.25.0"
eframe = { version = "0.37.0", default-features = false, features = ["default_fonts", "glow", "x11"] }
enigo = "0.6.1"
objc2 = "0.6.5"
objc2-app-kit = "0.3.2"
objc2-foundation = "0.3.2"
thiserror = "2.0.21"
tracing = "0.1.44"
tracing-subscriber = { version = "0.3.23", features = ["env-filter"] }
