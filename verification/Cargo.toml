[package]
name = "rengine"
version = "0.1.0"
edition = "2021"
publish = false

[dependencies]
once_cell = "1"
sdl2 = "*"
uuid = { version = "1", features = ["v4"] }
